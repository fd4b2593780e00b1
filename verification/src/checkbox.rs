//! A toggleable button with adjacent customizable text.

use vstd::prelude::*;
use vstd::string::*;

use crate::call::Call;
use crate::call::Constructor;
use crate::call::Event;
use crate::call::Getter;
use crate::call::Setter;
use crate::call::TextGetter;
use crate::call::TextSetter;
use crate::call::set_bool_call;
use crate::call::set_text_call;
use crate::callback::Slot;
use crate::control::Control;
use crate::error::Error;
use crate::ffi::c_text;
use crate::ffi::create_c_string;
use crate::ffi::has_nul;
use crate::ffi::int_of_bool;
use crate::ffi::text_from_c;
use crate::ui::FromControl;
use crate::ui::Ui;

verus! {

impl Ui {
    /// The call that makes a checkbox with the given text, or the error where
    /// the text holds a zero byte.
    pub fn create_checkbox(&self, text: &str) -> (r: Result<Call, Error>)
        ensures
            r is Ok <==> !has_nul(text.spec_bytes()),
            r matches Ok(call) ==> call matches Call::New(Constructor::Checkbox { text: t }) && t@
                == c_text(text.spec_bytes()),
            r matches Err(e) ==> e.is_nul_in(text.spec_bytes()),
    {
        match create_c_string(text) {
            Ok(text) => Ok(Call::New(Constructor::Checkbox { text })),
            Err(e) => Err(Error::ConvertRustString(e)),
        }
    }
}

/// A toggleable button with adjacent customizable text.
#[derive(Debug)]
pub struct Checkbox<F> {
    inner: Control,
    on_toggled: Slot<F>,
}

impl<F> FromControl for Checkbox<F> {
    closed spec fn control(&self) -> Control {
        self.inner
    }

    open spec fn is_fresh(&self) -> bool {
        self.toggled_callback() is None
    }

    fn from_control(control: Control) -> (widget: Self) {
        Checkbox { inner: control, on_toggled: Slot::empty() }
    }
}

impl<F> Checkbox<F> {
    /// The callback that runs when this checkbox is toggled, if one is set.
    pub closed spec fn toggled_callback(&self) -> Option<F> {
        self.on_toggled.held()
    }

    /// Wraps the native checkbox at `ptr`, which this side is to destroy.
    pub fn new(ptr: usize) -> (widget: Self)
        requires
            ptr != 0,
        ensures
            widget.control().address() == ptr,
            !widget.control().child(),
            widget.is_fresh(),
    {
        Self::from_control(Control::new(ptr))
    }

    /// The address of the native checkbox. It is not zero.
    pub fn as_ptr(&self) -> (ptr: usize)
        ensures
            ptr == self.control().address(),
            ptr != 0,
    {
        self.inner.as_ptr()
    }

    /// The control inside the checkbox.
    pub fn as_control(&self) -> (control: &Control)
        ensures
            *control == self.control(),
    {
        &self.inner
    }

    /// Gives up the checkbox for the control inside it.
    pub fn into_control(self) -> (control: Control)
        ensures
            control == self.control(),
    {
        self.inner
    }

    /// The control inside the checkbox, to change it.
    pub fn as_control_mut(&mut self) -> (control: &mut Control)
        ensures
            *control == old(self).control(),
            final(self).control() == *final(control),
            final(self).toggled_callback() == old(self).toggled_callback(),
    {
        &mut self.inner
    }

    /// The call that asks for the text displayed adjacent to this checkbox. The
    /// reply is text in the toolkit's form, read by `text_from_c` or
    /// `raw_text_from_c`.
    pub fn text(&self) -> (call: Call)
        ensures
            call == (Call::GetText {
                text_getter: TextGetter::CheckboxText,
                target: self.control().address(),
            }),
    {
        Call::GetText { text_getter: TextGetter::CheckboxText, target: self.inner.as_ptr() }
    }

    /// The call that sets the text displayed adjacent to this checkbox, or the
    /// error where the text holds a zero byte.
    pub fn set_text(&self, text: &str) -> (r: Result<Call, Error>)
        ensures
            r is Ok <==> !has_nul(text.spec_bytes()),
            r matches Ok(call) ==> call.is_set_text(
                TextSetter::CheckboxSetText,
                self.control().address(),
                text.spec_bytes(),
            ),
            r matches Err(e) ==> e.is_nul_in(text.spec_bytes()),
    {
        set_text_call(TextSetter::CheckboxSetText, self.inner.as_ptr(), text)
    }

    /// Sets the callback for when this checkbox is toggled, in place of the one
    /// set before, and gives the call that registers it.
    pub fn on_toggled(&mut self, callback: F) -> (call: Call)
        ensures
            final(self).toggled_callback() == Some(callback),
            final(self).control() == old(self).control(),
            call == (Call::Register {
                event: Event::CheckboxToggled,
                target: old(self).control().address(),
            }),
    {
        let _ = self.on_toggled.set(callback);
        Call::Register { event: Event::CheckboxToggled, target: self.inner.as_ptr() }
    }

    /// The callback to run now that this checkbox was toggled.
    pub fn on_toggled_callback(&mut self) -> (callback: Option<&mut F>)
        ensures
            match callback {
                Some(f) => old(self).toggled_callback() == Some(*f)
                    && final(self).toggled_callback() == Some(*final(f)),
                None => old(self).toggled_callback() is None
                    && final(self).toggled_callback() is None,
            },
            final(self).control() == old(self).control(),
    {
        self.on_toggled.get_mut()
    }

    /// The call that asks whether this checkbox is checked. The reply is a
    /// truth value in the toolkit's form.
    pub fn checked(&self) -> (call: Call)
        ensures
            call == (Call::GetInt {
                getter: Getter::CheckboxChecked,
                target: self.control().address(),
            }),
    {
        Call::GetInt { getter: Getter::CheckboxChecked, target: self.inner.as_ptr() }
    }

    /// The call that sets whether this checkbox is checked.
    pub fn set_checked(&self, value: bool) -> (call: Call)
        ensures
            call == (Call::SetInt {
                setter: Setter::CheckboxSetChecked,
                target: self.control().address(),
                value: int_of_bool(value),
            }),
    {
        set_bool_call(Setter::CheckboxSetChecked, self.inner.as_ptr(), value)
    }
}

} // verus!
