//! A canvas to draw on.

use vstd::prelude::*;

use crate::control::Control;
use crate::ui::FromControl;

verus! {

/// A canvas to draw on.
#[derive(Debug, PartialEq, Eq)]
pub struct Area {
    inner: Control,
}

impl FromControl for Area {
    closed spec fn control(&self) -> Control {
        self.inner
    }

    open spec fn is_fresh(&self) -> bool {
        true
    }

    fn from_control(control: Control) -> (widget: Self) {
        Area { inner: control }
    }
}

impl Area {
    /// Wraps the native area at `ptr`, which this side is to destroy.
    pub fn new(ptr: usize) -> (widget: Self)
        requires
            ptr != 0,
        ensures
            widget.control().address() == ptr,
            !widget.control().child(),
            widget.is_fresh(),
    {
        Self::from_control(Control::new(ptr))
    }

    /// The address of the native area. It is not zero.
    pub fn as_ptr(&self) -> (ptr: usize)
        ensures
            ptr == self.control().address(),
            ptr != 0,
    {
        self.inner.as_ptr()
    }

    /// The control inside the area.
    pub fn as_control(&self) -> (control: &Control)
        ensures
            *control == self.control(),
    {
        &self.inner
    }

    /// Gives up the area for the control inside it.
    pub fn into_control(self) -> (control: Control)
        ensures
            control == self.control(),
    {
        self.inner
    }

    /// The control inside the area, to change it.
    pub fn as_control_mut(&mut self) -> (control: &mut Control)
        ensures
            *control == old(self).control(),
            final(self).control() == *final(control),
    {
        &mut self.inner
    }
}

} // verus!
