//! A handle on a line, by which a number in a range is chosen.

use vstd::prelude::*;

use crate::call::Call;
use crate::call::Constructor;
use crate::call::Event;
use crate::call::Getter;
use crate::call::PairSetter;
use crate::call::Setter;
use crate::call::set_bool_call;
use crate::callback::Slot;
use crate::control::Control;
use crate::ffi::int_of_bool;
use crate::ui::FromControl;
use crate::ui::Ui;

verus! {

impl Ui {
    /// The call that makes a slider for the values from `min` to `max`.
    pub fn create_slider(&self, min: u16, max: u16) -> (call: Call)
        ensures
            call == Call::New(Constructor::Slider { min: min as i32, max: max as i32 }),
    {
        Call::New(Constructor::Slider { min: min as i32, max: max as i32 })
    }
}

/// A handle on a line, by which a number in a range is chosen.
#[derive(Debug)]
pub struct Slider<F> {
    inner: Control,
    on_changed: Slot<F>,
}

impl<F> FromControl for Slider<F> {
    closed spec fn control(&self) -> Control {
        self.inner
    }

    open spec fn is_fresh(&self) -> bool {
        self.changed_callback() is None
    }

    fn from_control(control: Control) -> (widget: Self) {
        Slider { inner: control, on_changed: Slot::empty() }
    }
}

impl<F> Slider<F> {
    /// The callback that runs when this slider changes, if one is set.
    pub closed spec fn changed_callback(&self) -> Option<F> {
        self.on_changed.held()
    }

    /// Wraps the native slider at `ptr`, which this side is to destroy.
    pub fn new(ptr: usize) -> (widget: Self)
        requires
            ptr != 0,
        ensures
            widget.control().address() == ptr,
            !widget.control().child(),
            widget.is_fresh(),
    {
        Self::from_control(Control::new(ptr))
    }

    /// The address of the native slider. It is not zero.
    pub fn as_ptr(&self) -> (ptr: usize)
        ensures
            ptr == self.control().address(),
            ptr != 0,
    {
        self.inner.as_ptr()
    }

    /// The control inside the slider.
    pub fn as_control(&self) -> (control: &Control)
        ensures
            *control == self.control(),
    {
        &self.inner
    }

    /// Gives up the slider for the control inside it.
    pub fn into_control(self) -> (control: Control)
        ensures
            control == self.control(),
    {
        self.inner
    }

    /// The control inside the slider, to change it.
    pub fn as_control_mut(&mut self) -> (control: &mut Control)
        ensures
            *control == old(self).control(),
            final(self).control() == *final(control),
            final(self).changed_callback() == old(self).changed_callback(),
    {
        &mut self.inner
    }

    /// The call that asks for the current value of this slider. The reply is a
    /// count in the toolkit's form.
    pub fn value(&self) -> (call: Call)
        ensures
            call == (Call::GetInt {
                getter: Getter::SliderValue,
                target: self.control().address(),
            }),
    {
        Call::GetInt { getter: Getter::SliderValue, target: self.inner.as_ptr() }
    }

    /// The call that sets the value of this slider.
    pub fn set_value(&self, value: u16) -> (call: Call)
        ensures
            call == (Call::SetInt {
                setter: Setter::SliderSetValue,
                target: self.control().address(),
                value: value as i32,
            }),
    {
        Call::SetInt {
            setter: Setter::SliderSetValue,
            target: self.inner.as_ptr(),
            value: value as i32,
        }
    }

    /// The call that asks whether this slider has a tooltip. The reply is a
    /// truth value in the toolkit's form.
    pub fn has_tooltip(&self) -> (call: Call)
        ensures
            call == (Call::GetInt {
                getter: Getter::SliderHasToolTip,
                target: self.control().address(),
            }),
    {
        Call::GetInt { getter: Getter::SliderHasToolTip, target: self.inner.as_ptr() }
    }

    /// The call that sets whether this slider has a tooltip.
    pub fn set_has_tooltip(&self, value: bool) -> (call: Call)
        ensures
            call == (Call::SetInt {
                setter: Setter::SliderSetHasToolTip,
                target: self.control().address(),
                value: int_of_bool(value),
            }),
    {
        set_bool_call(Setter::SliderSetHasToolTip, self.inner.as_ptr(), value)
    }

    /// Sets the callback for when this slider changes, in place of the one set
    /// before, and gives the call that registers it.
    pub fn on_changed(&mut self, callback: F) -> (call: Call)
        ensures
            final(self).changed_callback() == Some(callback),
            final(self).control() == old(self).control(),
            call == (Call::Register {
                event: Event::SliderChanged,
                target: old(self).control().address(),
            }),
    {
        let _ = self.on_changed.set(callback);
        Call::Register { event: Event::SliderChanged, target: self.inner.as_ptr() }
    }

    /// The callback to run now that this slider changed.
    pub fn on_changed_callback(&mut self) -> (callback: Option<&mut F>)
        ensures
            match callback {
                Some(f) => old(self).changed_callback() == Some(*f)
                    && final(self).changed_callback() == Some(*final(f)),
                None => old(self).changed_callback() is None
                    && final(self).changed_callback() is None,
            },
            final(self).control() == old(self).control(),
    {
        self.on_changed.get_mut()
    }

    /// The call that sets the least and the greatest value of this slider.
    pub fn set_range(&self, min: u16, max: u16) -> (call: Call)
        ensures
            call == (Call::SetPair {
                pair_setter: PairSetter::SliderSetRange,
                target: self.control().address(),
                first: min as i32,
                second: max as i32,
            }),
    {
        Call::SetPair {
            pair_setter: PairSetter::SliderSetRange,
            target: self.inner.as_ptr(),
            first: min as i32,
            second: max as i32,
        }
    }
}

} // verus!
