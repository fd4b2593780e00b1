//! A line of text that the user cannot change.

use vstd::prelude::*;
use vstd::string::*;

use crate::call::Call;
use crate::call::Constructor;
use crate::call::TextGetter;
use crate::call::TextSetter;
use crate::call::set_text_call;
use crate::control::Control;
use crate::error::Error;
use crate::ffi::c_text;
use crate::ffi::create_c_string;
use crate::ffi::has_nul;
use crate::ffi::text_from_c;
use crate::ui::FromControl;
use crate::ui::Ui;

verus! {

impl Ui {
    /// The call that makes a label with the given text, or the error where the
    /// text holds a zero byte.
    pub fn create_label(&self, text: &str) -> (r: Result<Call, Error>)
        ensures
            r is Ok <==> !has_nul(text.spec_bytes()),
            r matches Ok(call) ==> call matches Call::New(Constructor::Label { text: t }) && t@
                == c_text(text.spec_bytes()),
            r matches Err(e) ==> e.is_nul_in(text.spec_bytes()),
    {
        match create_c_string(text) {
            Ok(text) => Ok(Call::New(Constructor::Label { text })),
            Err(e) => Err(Error::ConvertRustString(e)),
        }
    }
}

/// A line of text that the user cannot change.
#[derive(Debug, PartialEq, Eq)]
pub struct Label {
    inner: Control,
}

impl FromControl for Label {
    closed spec fn control(&self) -> Control {
        self.inner
    }

    open spec fn is_fresh(&self) -> bool {
        true
    }

    fn from_control(control: Control) -> (widget: Self) {
        Label { inner: control }
    }
}

impl Label {
    /// Wraps the native label at `ptr`, which this side is to destroy.
    pub fn new(ptr: usize) -> (widget: Self)
        requires
            ptr != 0,
        ensures
            widget.control().address() == ptr,
            !widget.control().child(),
            widget.is_fresh(),
    {
        Self::from_control(Control::new(ptr))
    }

    /// The address of the native label. It is not zero.
    pub fn as_ptr(&self) -> (ptr: usize)
        ensures
            ptr == self.control().address(),
            ptr != 0,
    {
        self.inner.as_ptr()
    }

    /// The control inside the label.
    pub fn as_control(&self) -> (control: &Control)
        ensures
            *control == self.control(),
    {
        &self.inner
    }

    /// Gives up the label for the control inside it.
    pub fn into_control(self) -> (control: Control)
        ensures
            control == self.control(),
    {
        self.inner
    }

    /// The control inside the label, to change it.
    pub fn as_control_mut(&mut self) -> (control: &mut Control)
        ensures
            *control == old(self).control(),
            final(self).control() == *final(control),
    {
        &mut self.inner
    }

    /// The call that asks for the text displayed by this label. The reply is
    /// text in the toolkit's form, read by `text_from_c` or `raw_text_from_c`.
    pub fn text(&self) -> (call: Call)
        ensures
            call == (Call::GetText {
                text_getter: TextGetter::LabelText,
                target: self.control().address(),
            }),
    {
        Call::GetText { text_getter: TextGetter::LabelText, target: self.inner.as_ptr() }
    }

    /// The call that sets the text displayed by this label, or the error where
    /// the text holds a zero byte.
    pub fn set_text(&self, text: &str) -> (r: Result<Call, Error>)
        ensures
            r is Ok <==> !has_nul(text.spec_bytes()),
            r matches Ok(call) ==> call.is_set_text(
                TextSetter::LabelSetText,
                self.control().address(),
                text.spec_bytes(),
            ),
            r matches Err(e) ==> e.is_nul_in(text.spec_bytes()),
    {
        set_text_call(TextSetter::LabelSetText, self.inner.as_ptr(), text)
    }
}

} // verus!
