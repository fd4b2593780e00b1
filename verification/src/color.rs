//! A pushbutton that opens a color picker dialog.

use vstd::prelude::*;

use crate::call::Call;
use crate::call::Constructor;
use crate::call::Event;
use crate::callback::Slot;
use crate::control::Control;
use crate::ui::FromControl;
use crate::ui::Ui;

verus! {

impl Ui {
    /// The call that makes a color picker.
    pub fn create_color_picker(&self) -> (call: Call)
        ensures
            call == Call::New(Constructor::ColorButton),
    {
        Call::New(Constructor::ColorButton)
    }
}

/// A pushbutton that opens a color picker dialog.
#[derive(Debug)]
pub struct Picker<F> {
    inner: Control,
    on_selected: Slot<F>,
}

impl<F> FromControl for Picker<F> {
    closed spec fn control(&self) -> Control {
        self.inner
    }

    open spec fn is_fresh(&self) -> bool {
        self.selected_callback() is None
    }

    fn from_control(control: Control) -> (widget: Self) {
        Picker { inner: control, on_selected: Slot::empty() }
    }
}

impl<F> Picker<F> {
    /// The callback that runs when the selected color changes, if one is set.
    pub closed spec fn selected_callback(&self) -> Option<F> {
        self.on_selected.held()
    }

    /// Wraps the native color button at `ptr`, which this side is to destroy.
    pub fn new(ptr: usize) -> (widget: Self)
        requires
            ptr != 0,
        ensures
            widget.control().address() == ptr,
            !widget.control().child(),
            widget.is_fresh(),
    {
        Self::from_control(Control::new(ptr))
    }

    /// The address of the native color button. It is not zero.
    pub fn as_ptr(&self) -> (ptr: usize)
        ensures
            ptr == self.control().address(),
            ptr != 0,
    {
        self.inner.as_ptr()
    }

    /// The control inside the color button.
    pub fn as_control(&self) -> (control: &Control)
        ensures
            *control == self.control(),
    {
        &self.inner
    }

    /// Gives up the color button for the control inside it.
    pub fn into_control(self) -> (control: Control)
        ensures
            control == self.control(),
    {
        self.inner
    }

    /// The control inside the color button, to change it.
    pub fn as_control_mut(&mut self) -> (control: &mut Control)
        ensures
            *control == old(self).control(),
            final(self).control() == *final(control),
            final(self).selected_callback() == old(self).selected_callback(),
    {
        &mut self.inner
    }

    /// Sets the callback for when the selected color changes, in place of the
    /// one set before, and gives the call that registers it.
    pub fn on_selected(&mut self, callback: F) -> (call: Call)
        ensures
            final(self).selected_callback() == Some(callback),
            final(self).control() == old(self).control(),
            call == (Call::Register {
                event: Event::ColorButtonChanged,
                target: old(self).control().address(),
            }),
    {
        let _ = self.on_selected.set(callback);
        Call::Register { event: Event::ColorButtonChanged, target: self.inner.as_ptr() }
    }

    /// The callback to run now that the selected color changed.
    pub fn on_selected_callback(&mut self) -> (callback: Option<&mut F>)
        ensures
            match callback {
                Some(f) => old(self).selected_callback() == Some(*f)
                    && final(self).selected_callback() == Some(*final(f)),
                None => old(self).selected_callback() is None
                    && final(self).selected_callback() is None,
            },
            final(self).control() == old(self).control(),
    {
        self.on_selected.get_mut()
    }
}

} // verus!
