//! An RGBA bitmap.

use vstd::prelude::*;

use crate::call::Call;
use crate::control::Control;
use crate::ui::FromControl;

verus! {

/// One pixel, in the order in which its four bytes lie in memory.
#[derive(Clone, Copy, Debug, PartialEq, Eq)]
pub struct Pixel {
    pub r: u8,
    pub b: u8,
    pub g: u8,
    pub a: u8,
}

/// The bytes of `pixels` as they lie in memory: four for each pixel, in the
/// order of the pixel's fields.
pub open spec fn pixel_bytes(pixels: Seq<Pixel>) -> Seq<u8>
    decreases pixels.len(),
{
    if pixels.len() == 0 {
        Seq::empty()
    } else {
        let pixel = pixels.last();
        pixel_bytes(pixels.drop_last()).push(pixel.r).push(pixel.b).push(pixel.g).push(pixel.a)
    }
}

/// Every pixel gives four bytes.
pub proof fn lemma_pixel_bytes_len(pixels: Seq<Pixel>)
    ensures
        pixel_bytes(pixels).len() == 4 * pixels.len(),
    decreases pixels.len(),
{
    if pixels.len() > 0 {
        lemma_pixel_bytes_len(pixels.drop_last());
    }
}

/// An RGBA bitmap.
#[derive(Debug, PartialEq, Eq)]
pub struct Image {
    inner: Control,
}

impl FromControl for Image {
    closed spec fn control(&self) -> Control {
        self.inner
    }

    open spec fn is_fresh(&self) -> bool {
        true
    }

    fn from_control(control: Control) -> (widget: Self) {
        Image { inner: control }
    }
}

impl Image {
    /// Wraps the native image at `ptr`, which this side is to destroy.
    pub fn new(ptr: usize) -> (widget: Self)
        requires
            ptr != 0,
        ensures
            widget.control().address() == ptr,
            !widget.control().child(),
            widget.is_fresh(),
    {
        Self::from_control(Control::new(ptr))
    }

    /// The address of the native image. It is not zero.
    pub fn as_ptr(&self) -> (ptr: usize)
        ensures
            ptr == self.control().address(),
            ptr != 0,
    {
        self.inner.as_ptr()
    }

    /// The control inside the image.
    pub fn as_control(&self) -> (control: &Control)
        ensures
            *control == self.control(),
    {
        &self.inner
    }

    /// Gives up the image for the control inside it.
    pub fn into_control(self) -> (control: Control)
        ensures
            control == self.control(),
    {
        self.inner
    }

    /// The control inside the image, to change it.
    pub fn as_control_mut(&mut self) -> (control: &mut Control)
        ensures
            *control == old(self).control(),
            final(self).control() == *final(control),
    {
        &mut self.inner
    }

    /// The call that adds a representation of this image, `width` pixels wide
    /// and `height` high, with `byte_stride` bytes from one row to the next.
    /// The toolkit copies the pixels before the call returns.
    pub fn append(&self, pixels: &[Pixel], width: u16, height: u16, byte_stride: u16) -> (call:
        Call)
        ensures
            call matches Call::ImageAppend { target, pixels: bytes, width: w, height: h, byte_stride: s }
                && target == self.control().address() && bytes@ == pixel_bytes(pixels@) && w
                == width && h == height && s == byte_stride,
    {
        let mut bytes: Vec<u8> = Vec::new();
        let mut i: usize = 0;
        while i < pixels.len()
            invariant
                i <= pixels.len(),
                bytes@ == pixel_bytes(pixels@.subrange(0, i as int)),
            decreases pixels.len() - i,
        {
            proof {
                assert(pixels@.subrange(0, i + 1).drop_last() =~= pixels@.subrange(0, i as int));
            }
            let pixel = &pixels[i];
            bytes.push(pixel.r);
            bytes.push(pixel.b);
            bytes.push(pixel.g);
            bytes.push(pixel.a);
            i += 1;
        }
        proof {
            assert(pixels@.subrange(0, i as int) =~= pixels@);
        }
        Call::ImageAppend {
            target: self.inner.as_ptr(),
            pixels: bytes,
            width: width as i32,
            height: height as i32,
            byte_stride: byte_stride as i32,
        }
    }
}

} // verus!
