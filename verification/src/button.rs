//! A clickable button containing customizable text.

use vstd::prelude::*;
use vstd::string::*;

use crate::call::Call;
use crate::call::Constructor;
use crate::call::Event;
use crate::call::TextGetter;
use crate::call::TextSetter;
use crate::call::set_text_call;
use crate::callback::Slot;
use crate::control::Control;
use crate::error::Error;
use crate::ffi::c_text;
use crate::ffi::create_c_string;
use crate::ffi::has_nul;
use crate::ffi::text_from_c;
use crate::ui::FromControl;
use crate::ui::Ui;

verus! {

impl Ui {
    /// The call that makes a button with the given text, or the error where the
    /// text holds a zero byte.
    pub fn create_button(&self, text: &str) -> (r: Result<Call, Error>)
        ensures
            r is Ok <==> !has_nul(text.spec_bytes()),
            r matches Ok(call) ==> call matches Call::New(Constructor::Button { text: t }) && t@
                == c_text(text.spec_bytes()),
            r matches Err(e) ==> e.is_nul_in(text.spec_bytes()),
    {
        match create_c_string(text) {
            Ok(text) => Ok(Call::New(Constructor::Button { text })),
            Err(e) => Err(Error::ConvertRustString(e)),
        }
    }
}

/// A clickable button containing customizable text.
#[derive(Debug)]
pub struct Button<F> {
    inner: Control,
    on_clicked: Slot<F>,
}

impl<F> FromControl for Button<F> {
    closed spec fn control(&self) -> Control {
        self.inner
    }

    open spec fn is_fresh(&self) -> bool {
        self.clicked_callback() is None
    }

    fn from_control(control: Control) -> (widget: Self) {
        Button { inner: control, on_clicked: Slot::empty() }
    }
}

impl<F> Button<F> {
    /// The callback that runs when this button is clicked, if one is set.
    pub closed spec fn clicked_callback(&self) -> Option<F> {
        self.on_clicked.held()
    }

    /// Wraps the native button at `ptr`, which this side is to destroy.
    pub fn new(ptr: usize) -> (widget: Self)
        requires
            ptr != 0,
        ensures
            widget.control().address() == ptr,
            !widget.control().child(),
            widget.is_fresh(),
    {
        Self::from_control(Control::new(ptr))
    }

    /// The address of the native button. It is not zero.
    pub fn as_ptr(&self) -> (ptr: usize)
        ensures
            ptr == self.control().address(),
            ptr != 0,
    {
        self.inner.as_ptr()
    }

    /// The control inside the button.
    pub fn as_control(&self) -> (control: &Control)
        ensures
            *control == self.control(),
    {
        &self.inner
    }

    /// Gives up the button for the control inside it.
    pub fn into_control(self) -> (control: Control)
        ensures
            control == self.control(),
    {
        self.inner
    }

    /// The control inside the button, to change it.
    pub fn as_control_mut(&mut self) -> (control: &mut Control)
        ensures
            *control == old(self).control(),
            final(self).control() == *final(control),
            final(self).clicked_callback() == old(self).clicked_callback(),
    {
        &mut self.inner
    }

    /// The call that asks for the text displayed within this button. The reply
    /// is text in the toolkit's form, read by `text_from_c` or
    /// `raw_text_from_c`.
    pub fn text(&self) -> (call: Call)
        ensures
            call == (Call::GetText {
                text_getter: TextGetter::ButtonText,
                target: self.control().address(),
            }),
    {
        Call::GetText { text_getter: TextGetter::ButtonText, target: self.inner.as_ptr() }
    }

    /// The call that sets the text displayed within this button, or the error
    /// where the text holds a zero byte.
    pub fn set_text(&self, text: &str) -> (r: Result<Call, Error>)
        ensures
            r is Ok <==> !has_nul(text.spec_bytes()),
            r matches Ok(call) ==> call.is_set_text(
                TextSetter::ButtonSetText,
                self.control().address(),
                text.spec_bytes(),
            ),
            r matches Err(e) ==> e.is_nul_in(text.spec_bytes()),
    {
        set_text_call(TextSetter::ButtonSetText, self.inner.as_ptr(), text)
    }

    /// Sets the callback for when this button is clicked, in place of the one
    /// set before, and gives the call that registers it.
    pub fn on_clicked(&mut self, callback: F) -> (call: Call)
        ensures
            final(self).clicked_callback() == Some(callback),
            final(self).control() == old(self).control(),
            call == (Call::Register {
                event: Event::ButtonClicked,
                target: old(self).control().address(),
            }),
    {
        let _ = self.on_clicked.set(callback);
        Call::Register { event: Event::ButtonClicked, target: self.inner.as_ptr() }
    }

    /// The callback to run now that this button was clicked.
    pub fn on_clicked_callback(&mut self) -> (callback: Option<&mut F>)
        ensures
            match callback {
                Some(f) => old(self).clicked_callback() == Some(*f)
                    && final(self).clicked_callback() == Some(*final(f)),
                None => old(self).clicked_callback() is None
                    && final(self).clicked_callback() is None,
            },
            final(self).control() == old(self).control(),
    {
        self.on_clicked.get_mut()
    }
}

} // verus!
