//! A horizontal bar that continuously fills as an action progresses.

use vstd::prelude::*;

use crate::call::Call;
use crate::call::Constructor;
use crate::call::Getter;
use crate::call::Setter;
use crate::control::Control;
use crate::ui::FromControl;
use crate::ui::Ui;

verus! {

impl Ui {
    /// The call that makes a progress bar.
    pub fn create_progress_bar(&self) -> (call: Call)
        ensures
            call == Call::New(Constructor::ProgressBar),
    {
        Call::New(Constructor::ProgressBar)
    }
}

/// A horizontal bar that continuously fills as an action progresses.
#[derive(Debug, PartialEq, Eq)]
pub struct ProgressBar {
    inner: Control,
}

impl FromControl for ProgressBar {
    closed spec fn control(&self) -> Control {
        self.inner
    }

    open spec fn is_fresh(&self) -> bool {
        true
    }

    fn from_control(control: Control) -> (widget: Self) {
        ProgressBar { inner: control }
    }
}

impl ProgressBar {
    /// Wraps the native progress bar at `ptr`, which this side is to destroy.
    pub fn new(ptr: usize) -> (widget: Self)
        requires
            ptr != 0,
        ensures
            widget.control().address() == ptr,
            !widget.control().child(),
            widget.is_fresh(),
    {
        Self::from_control(Control::new(ptr))
    }

    /// The address of the native progress bar. It is not zero.
    pub fn as_ptr(&self) -> (ptr: usize)
        ensures
            ptr == self.control().address(),
            ptr != 0,
    {
        self.inner.as_ptr()
    }

    /// The control inside the progress bar.
    pub fn as_control(&self) -> (control: &Control)
        ensures
            *control == self.control(),
    {
        &self.inner
    }

    /// Gives up the progress bar for the control inside it.
    pub fn into_control(self) -> (control: Control)
        ensures
            control == self.control(),
    {
        self.inner
    }

    /// The control inside the progress bar, to change it.
    pub fn as_control_mut(&mut self) -> (control: &mut Control)
        ensures
            *control == old(self).control(),
            final(self).control() == *final(control),
    {
        &mut self.inner
    }

    /// The call that asks for the current value of this progress bar. The reply
    /// is a count in the toolkit's form. It is 0 by default.
    pub fn value(&self) -> (call: Call)
        ensures
            call == (Call::GetInt {
                getter: Getter::ProgressBarValue,
                target: self.control().address(),
            }),
    {
        Call::GetInt { getter: Getter::ProgressBarValue, target: self.inner.as_ptr() }
    }

    /// The call that sets the value of this progress bar.
    pub fn set_value(&self, value: u16) -> (call: Call)
        ensures
            call == (Call::SetInt {
                setter: Setter::ProgressBarSetValue,
                target: self.control().address(),
                value: value as i32,
            }),
    {
        Call::SetInt {
            setter: Setter::ProgressBarSetValue,
            target: self.inner.as_ptr(),
            value: value as i32,
        }
    }

    /// The call that marks this progress bar as indefinite: an action is in
    /// progress, and it is unknown when it will complete. The toolkit takes the
    /// value -1 for that.
    pub fn set_as_indefinite(&self) -> (call: Call)
        ensures
            call == (Call::SetInt {
                setter: Setter::ProgressBarSetValue,
                target: self.control().address(),
                value: -1i32,
            }),
    {
        Call::SetInt {
            setter: Setter::ProgressBarSetValue,
            target: self.inner.as_ptr(),
            value: -1i32,
        }
    }
}

} // verus!
