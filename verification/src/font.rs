//! A pushbutton that opens a font picker dialog, and the fonts that it gives.

use vstd::prelude::*;
use vstd::string::*;
use vstd::utf8::*;

use crate::call::Call;
use crate::call::Constructor;
use crate::call::Event;
use crate::callback::Slot;
use crate::control::Control;
use crate::ffi::lossy_utf8;
use crate::ffi::text_from_c;
use crate::ui::FromControl;
use crate::ui::Ui;

verus! {

impl Ui {
    /// The call that makes a font picker.
    pub fn create_font_picker(&self) -> (call: Call)
        ensures
            call == Call::New(Constructor::FontButton),
    {
        Call::New(Constructor::FontButton)
    }
}

/// A font returned by [`Picker::selected_font`], but for its size.
#[derive(Debug, PartialEq, Eq)]
pub struct Font {
    pub family: String,
    pub weight: u32,
    pub italic_kind: Option<ItalicKind>,
    pub stretch: StretchKind,
}

/// How the letters of a font slant.
#[derive(Clone, Copy, Debug, PartialEq, Eq)]
pub enum ItalicKind {
    Oblique,
    True,
}

impl ItalicKind {
    /// What the number `value` of a descriptor says of the slant: upright for
    /// 0, oblique for 1, italic for 2, and nothing for any other number.
    pub open spec fn of_desc(value: u32) -> Result<Option<ItalicKind>, ()> {
        if value == 0 {
            Ok(None)
        } else if value == 1 {
            Ok(Some(ItalicKind::Oblique))
        } else if value == 2 {
            Ok(Some(ItalicKind::True))
        } else {
            Err(())
        }
    }

    /// Reads the slant out of the number that a descriptor holds for it.
    pub fn try_from_desc(value: u32) -> (r: Result<Option<Self>, ()>)
        ensures
            r == Self::of_desc(value),
            r is Ok <==> value <= 2,
    {
        match value {
            0 => Ok(None),
            1 => Ok(Some(ItalicKind::Oblique)),
            2 => Ok(Some(ItalicKind::True)),
            _ => Err(()),
        }
    }
}

/// How wide the letters of a font are.
#[derive(Clone, Copy, Debug, PartialEq, Eq)]
pub enum StretchKind {
    UltraCondensed,
    ExtraCondensed,
    Condensed,
    SemiCondensed,
    Normal,
    SemiExpanded,
    Expanded,
    ExtraExpanded,
    UltraExpanded,
}

impl StretchKind {
    /// What the number `value` of a descriptor says of the width. The numbers
    /// 0 to 5 stand for the widths from ultra-condensed to semi-expanded, 6
    /// for extra-expanded and 7 for ultra-expanded; no number gives
    /// `Expanded`, and any other number gives nothing.
    pub open spec fn of_desc(value: u32) -> Result<StretchKind, ()> {
        if value == 0 {
            Ok(StretchKind::UltraCondensed)
        } else if value == 1 {
            Ok(StretchKind::ExtraCondensed)
        } else if value == 2 {
            Ok(StretchKind::Condensed)
        } else if value == 3 {
            Ok(StretchKind::SemiCondensed)
        } else if value == 4 {
            Ok(StretchKind::Normal)
        } else if value == 5 {
            Ok(StretchKind::SemiExpanded)
        } else if value == 6 {
            Ok(StretchKind::ExtraExpanded)
        } else if value == 7 {
            Ok(StretchKind::UltraExpanded)
        } else {
            Err(())
        }
    }

    /// Reads the width out of the number that a descriptor holds for it.
    pub fn try_from_desc(value: u32) -> (r: Result<Self, ()>)
        ensures
            r == Self::of_desc(value),
            r is Ok <==> value <= 7,
    {
        match value {
            0 => Ok(StretchKind::UltraCondensed),
            1 => Ok(StretchKind::ExtraCondensed),
            2 => Ok(StretchKind::Condensed),
            3 => Ok(StretchKind::SemiCondensed),
            4 => Ok(StretchKind::Normal),
            5 => Ok(StretchKind::SemiExpanded),
            6 => Ok(StretchKind::ExtraExpanded),
            7 => Ok(StretchKind::UltraExpanded),
            _ => Err(()),
        }
    }
}

/// A pushbutton that opens a font picker dialog.
#[derive(Debug)]
pub struct Picker<F> {
    inner: Control,
    on_selected: Slot<F>,
}

impl<F> FromControl for Picker<F> {
    closed spec fn control(&self) -> Control {
        self.inner
    }

    open spec fn is_fresh(&self) -> bool {
        self.selected_callback() is None
    }

    fn from_control(control: Control) -> (widget: Self) {
        Picker { inner: control, on_selected: Slot::empty() }
    }
}

impl<F> Picker<F> {
    /// The callback that runs when a new font is selected, if one is set.
    pub closed spec fn selected_callback(&self) -> Option<F> {
        self.on_selected.held()
    }

    /// Wraps the native font button at `ptr`, which this side is to destroy.
    pub fn new(ptr: usize) -> (widget: Self)
        requires
            ptr != 0,
        ensures
            widget.control().address() == ptr,
            !widget.control().child(),
            widget.is_fresh(),
    {
        Self::from_control(Control::new(ptr))
    }

    /// The address of the native font button. It is not zero.
    pub fn as_ptr(&self) -> (ptr: usize)
        ensures
            ptr == self.control().address(),
            ptr != 0,
    {
        self.inner.as_ptr()
    }

    /// The control inside the font button.
    pub fn as_control(&self) -> (control: &Control)
        ensures
            *control == self.control(),
    {
        &self.inner
    }

    /// Gives up the font button for the control inside it.
    pub fn into_control(self) -> (control: Control)
        ensures
            control == self.control(),
    {
        self.inner
    }

    /// The control inside the font button, to change it.
    pub fn as_control_mut(&mut self) -> (control: &mut Control)
        ensures
            *control == old(self).control(),
            final(self).control() == *final(control),
            final(self).selected_callback() == old(self).selected_callback(),
    {
        &mut self.inner
    }

    /// Sets the callback for when a new font is selected, in place of the one
    /// set before, and gives the call that registers it.
    pub fn on_selected(&mut self, callback: F) -> (call: Call)
        ensures
            final(self).selected_callback() == Some(callback),
            final(self).control() == old(self).control(),
            call == (Call::Register {
                event: Event::FontButtonChanged,
                target: old(self).control().address(),
            }),
    {
        let _ = self.on_selected.set(callback);
        Call::Register { event: Event::FontButtonChanged, target: self.inner.as_ptr() }
    }

    /// The callback to run now that a new font was selected.
    pub fn on_selected_callback(&mut self) -> (callback: Option<&mut F>)
        ensures
            match callback {
                Some(f) => old(self).selected_callback() == Some(*f)
                    && final(self).selected_callback() == Some(*final(f)),
                None => old(self).selected_callback() is None
                    && final(self).selected_callback() is None,
            },
            final(self).control() == old(self).control(),
    {
        self.on_selected.get_mut()
    }

    /// The call that asks for the descriptor of the font currently selected by
    /// this picker. `selected_font` reads the reply.
    pub fn font_descriptor(&self) -> (call: Call)
        ensures
            call == (Call::FontButtonFont { target: self.control().address() }),
    {
        Call::FontButtonFont { target: self.inner.as_ptr() }
    }

    /// The font currently selected by this picker, out of the descriptor that
    /// the toolkit gave: the bytes of the family's name before their closing
    /// zero byte, the weight, and the numbers for slant and width.
    pub fn selected_font(&self, family: &[u8], weight: u32, italic: u32, stretch: u32) -> (font:
        Font)
        requires
            ItalicKind::of_desc(italic) is Ok,
            StretchKind::of_desc(stretch) is Ok,
        ensures
            font.family@ == lossy_utf8(family@),
            valid_utf8(family@) ==> font.family@ == decode_utf8(family@),
            font.weight == weight,
            Ok::<Option<ItalicKind>, ()>(font.italic_kind) == ItalicKind::of_desc(italic),
            Ok::<StretchKind, ()>(font.stretch) == StretchKind::of_desc(stretch),
    {
        let family = text_from_c(family);
        let italic_kind = match ItalicKind::try_from_desc(italic) {
            Ok(kind) => kind,
            Err(()) => unreached(),
        };
        let stretch = match StretchKind::try_from_desc(stretch) {
            Ok(kind) => kind,
            Err(()) => unreached(),
        };
        Font { family, weight, italic_kind, stretch }
    }
}

} // verus!
