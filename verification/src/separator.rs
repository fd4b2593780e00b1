//! A visual linear separator.

use vstd::prelude::*;

use crate::call::Call;
use crate::call::Constructor;
use crate::control::Control;
use crate::ui::FromControl;
use crate::ui::Ui;

verus! {

impl Ui {
    /// The call that makes a horizontal separator.
    pub fn create_horizontal_separator(&self) -> (call: Call)
        ensures
            call == Call::New(Constructor::HorizontalSeparator),
    {
        Call::New(Constructor::HorizontalSeparator)
    }

    /// The call that makes a vertical separator.
    pub fn create_vertical_separator(&self) -> (call: Call)
        ensures
            call == Call::New(Constructor::VerticalSeparator),
    {
        Call::New(Constructor::VerticalSeparator)
    }
}

/// A visual linear separator.
#[derive(Debug, PartialEq, Eq)]
pub struct Separator {
    inner: Control,
}

impl FromControl for Separator {
    closed spec fn control(&self) -> Control {
        self.inner
    }

    open spec fn is_fresh(&self) -> bool {
        true
    }

    fn from_control(control: Control) -> (widget: Self) {
        Separator { inner: control }
    }
}

impl Separator {
    /// Wraps the native separator at `ptr`, which this side is to destroy.
    pub fn new(ptr: usize) -> (widget: Self)
        requires
            ptr != 0,
        ensures
            widget.control().address() == ptr,
            !widget.control().child(),
            widget.is_fresh(),
    {
        Self::from_control(Control::new(ptr))
    }

    /// The address of the native separator. It is not zero.
    pub fn as_ptr(&self) -> (ptr: usize)
        ensures
            ptr == self.control().address(),
            ptr != 0,
    {
        self.inner.as_ptr()
    }

    /// The control inside the separator.
    pub fn as_control(&self) -> (control: &Control)
        ensures
            *control == self.control(),
    {
        &self.inner
    }

    /// Gives up the separator for the control inside it.
    pub fn into_control(self) -> (control: Control)
        ensures
            control == self.control(),
    {
        self.inner
    }

    /// The control inside the separator, to change it.
    pub fn as_control_mut(&mut self) -> (control: &mut Control)
        ensures
            *control == old(self).control(),
            final(self).control() == *final(control),
    {
        &mut self.inner
    }
}

} // verus!
