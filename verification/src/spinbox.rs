//! A field for a number in a range, with buttons to step it.

use vstd::prelude::*;

use crate::call::Call;
use crate::call::Constructor;
use crate::call::Event;
use crate::call::Getter;
use crate::call::Setter;
use crate::callback::Slot;
use crate::control::Control;
use crate::ui::FromControl;
use crate::ui::Ui;

verus! {

impl Ui {
    /// The call that makes a spinbox for the values from `min` to `max`.
    pub fn create_spinbox(&self, min: u16, max: u16) -> (call: Call)
        ensures
            call == Call::New(Constructor::Spinbox { min: min as i32, max: max as i32 }),
    {
        Call::New(Constructor::Spinbox { min: min as i32, max: max as i32 })
    }
}

/// A field for a number in a range, with buttons to step it.
#[derive(Debug)]
pub struct Spinbox<F> {
    inner: Control,
    on_changed: Slot<F>,
}

impl<F> FromControl for Spinbox<F> {
    closed spec fn control(&self) -> Control {
        self.inner
    }

    open spec fn is_fresh(&self) -> bool {
        self.changed_callback() is None
    }

    fn from_control(control: Control) -> (widget: Self) {
        Spinbox { inner: control, on_changed: Slot::empty() }
    }
}

impl<F> Spinbox<F> {
    /// The callback that runs when this spinbox changes, if one is set.
    pub closed spec fn changed_callback(&self) -> Option<F> {
        self.on_changed.held()
    }

    /// Wraps the native spinbox at `ptr`, which this side is to destroy.
    pub fn new(ptr: usize) -> (widget: Self)
        requires
            ptr != 0,
        ensures
            widget.control().address() == ptr,
            !widget.control().child(),
            widget.is_fresh(),
    {
        Self::from_control(Control::new(ptr))
    }

    /// The address of the native spinbox. It is not zero.
    pub fn as_ptr(&self) -> (ptr: usize)
        ensures
            ptr == self.control().address(),
            ptr != 0,
    {
        self.inner.as_ptr()
    }

    /// The control inside the spinbox.
    pub fn as_control(&self) -> (control: &Control)
        ensures
            *control == self.control(),
    {
        &self.inner
    }

    /// Gives up the spinbox for the control inside it.
    pub fn into_control(self) -> (control: Control)
        ensures
            control == self.control(),
    {
        self.inner
    }

    /// The control inside the spinbox, to change it.
    pub fn as_control_mut(&mut self) -> (control: &mut Control)
        ensures
            *control == old(self).control(),
            final(self).control() == *final(control),
            final(self).changed_callback() == old(self).changed_callback(),
    {
        &mut self.inner
    }

    /// The call that asks for the current value of this spinbox. The reply is a
    /// count in the toolkit's form.
    pub fn value(&self) -> (call: Call)
        ensures
            call == (Call::GetInt {
                getter: Getter::SpinboxValue,
                target: self.control().address(),
            }),
    {
        Call::GetInt { getter: Getter::SpinboxValue, target: self.inner.as_ptr() }
    }

    /// The call that sets the value of this spinbox.
    pub fn set_value(&self, value: u16) -> (call: Call)
        ensures
            call == (Call::SetInt {
                setter: Setter::SpinboxSetValue,
                target: self.control().address(),
                value: value as i32,
            }),
    {
        Call::SetInt {
            setter: Setter::SpinboxSetValue,
            target: self.inner.as_ptr(),
            value: value as i32,
        }
    }

    /// Sets the callback for when this spinbox changes, in place of the one set
    /// before, and gives the call that registers it.
    pub fn on_changed(&mut self, callback: F) -> (call: Call)
        ensures
            final(self).changed_callback() == Some(callback),
            final(self).control() == old(self).control(),
            call == (Call::Register {
                event: Event::SpinboxChanged,
                target: old(self).control().address(),
            }),
    {
        let _ = self.on_changed.set(callback);
        Call::Register { event: Event::SpinboxChanged, target: self.inner.as_ptr() }
    }

    /// The callback to run now that this spinbox changed.
    pub fn on_changed_callback(&mut self) -> (callback: Option<&mut F>)
        ensures
            match callback {
                Some(f) => old(self).changed_callback() == Some(*f)
                    && final(self).changed_callback() == Some(*final(f)),
                None => old(self).changed_callback() is None
                    && final(self).changed_callback() is None,
            },
            final(self).control() == old(self).control(),
    {
        self.on_changed.get_mut()
    }
}

} // verus!
