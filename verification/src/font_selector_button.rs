//! A button that opens a dialog in which a font is chosen.

use vstd::prelude::*;

use crate::call::Call;
use crate::call::Constructor;
use crate::control::Control;
use crate::ui::FromControl;
use crate::ui::Ui;

verus! {

impl Ui {
    /// The call that makes a font selector button.
    pub fn create_font_selector_button(&self) -> (call: Call)
        ensures
            call == Call::New(Constructor::FontButton),
    {
        Call::New(Constructor::FontButton)
    }
}

/// A button that opens a dialog in which a font is chosen.
#[derive(Debug, PartialEq, Eq)]
pub struct FontSelectorButton {
    inner: Control,
}

impl FromControl for FontSelectorButton {
    closed spec fn control(&self) -> Control {
        self.inner
    }

    open spec fn is_fresh(&self) -> bool {
        true
    }

    fn from_control(control: Control) -> (widget: Self) {
        FontSelectorButton { inner: control }
    }
}

impl FontSelectorButton {
    /// Wraps the native font button at `ptr`, which this side is to destroy.
    pub fn new(ptr: usize) -> (widget: Self)
        requires
            ptr != 0,
        ensures
            widget.control().address() == ptr,
            !widget.control().child(),
            widget.is_fresh(),
    {
        Self::from_control(Control::new(ptr))
    }

    /// The address of the native font button. It is not zero.
    pub fn as_ptr(&self) -> (ptr: usize)
        ensures
            ptr == self.control().address(),
            ptr != 0,
    {
        self.inner.as_ptr()
    }

    /// The control inside the font button.
    pub fn as_control(&self) -> (control: &Control)
        ensures
            *control == self.control(),
    {
        &self.inner
    }

    /// Gives up the font button for the control inside it.
    pub fn into_control(self) -> (control: Control)
        ensures
            control == self.control(),
    {
        self.inner
    }

    /// The control inside the font button, to change it.
    pub fn as_control_mut(&mut self) -> (control: &mut Control)
        ensures
            *control == old(self).control(),
            final(self).control() == *final(control),
    {
        &mut self.inner
    }
}

} // verus!
