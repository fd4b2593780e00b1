//! A box in which a single line of text is displayed.

use vstd::prelude::*;
use vstd::string::*;

use crate::call::Call;
use crate::call::Constructor;
use crate::call::Event;
use crate::call::Getter;
use crate::call::Setter;
use crate::call::TextGetter;
use crate::call::TextSetter;
use crate::call::set_bool_call;
use crate::call::set_text_call;
use crate::callback::Slot;
use crate::control::Control;
use crate::error::Error;
use crate::ffi::has_nul;
use crate::ffi::int_of_bool;
use crate::ffi::text_from_c;
use crate::ui::FromControl;
use crate::ui::Ui;

verus! {

impl Ui {
    /// The call that makes a text entry.
    pub fn create_text_entry(&self) -> (call: Call)
        ensures
            call == Call::New(Constructor::Entry),
    {
        Call::New(Constructor::Entry)
    }

    /// The call that makes a text entry that obscures what is typed into it.
    pub fn create_password_text_entry(&self) -> (call: Call)
        ensures
            call == Call::New(Constructor::PasswordEntry),
    {
        Call::New(Constructor::PasswordEntry)
    }

    /// The call that makes a text entry made for search terms.
    pub fn create_search_text_entry(&self) -> (call: Call)
        ensures
            call == Call::New(Constructor::SearchEntry),
    {
        Call::New(Constructor::SearchEntry)
    }
}

/// A box in which a single line of text is displayed.
#[derive(Debug)]
pub struct TextEntry<F> {
    inner: Control,
    on_changed: Slot<F>,
}

impl<F> FromControl for TextEntry<F> {
    closed spec fn control(&self) -> Control {
        self.inner
    }

    open spec fn is_fresh(&self) -> bool {
        self.changed_callback() is None
    }

    fn from_control(control: Control) -> (widget: Self) {
        TextEntry { inner: control, on_changed: Slot::empty() }
    }
}

impl<F> TextEntry<F> {
    /// The callback that runs when the text within this entry changes, if one
    /// is set.
    pub closed spec fn changed_callback(&self) -> Option<F> {
        self.on_changed.held()
    }

    /// Wraps the native entry at `ptr`, which this side is to destroy.
    pub fn new(ptr: usize) -> (widget: Self)
        requires
            ptr != 0,
        ensures
            widget.control().address() == ptr,
            !widget.control().child(),
            widget.is_fresh(),
    {
        Self::from_control(Control::new(ptr))
    }

    /// The address of the native entry. It is not zero.
    pub fn as_ptr(&self) -> (ptr: usize)
        ensures
            ptr == self.control().address(),
            ptr != 0,
    {
        self.inner.as_ptr()
    }

    /// The control inside the entry.
    pub fn as_control(&self) -> (control: &Control)
        ensures
            *control == self.control(),
    {
        &self.inner
    }

    /// Gives up the entry for the control inside it.
    pub fn into_control(self) -> (control: Control)
        ensures
            control == self.control(),
    {
        self.inner
    }

    /// The control inside the entry, to change it.
    pub fn as_control_mut(&mut self) -> (control: &mut Control)
        ensures
            *control == old(self).control(),
            final(self).control() == *final(control),
            final(self).changed_callback() == old(self).changed_callback(),
    {
        &mut self.inner
    }

    /// The call that asks for the text displayed in this entry. The reply is
    /// text in the toolkit's form, read by `text_from_c` or `raw_text_from_c`.
    pub fn text(&self) -> (call: Call)
        ensures
            call == (Call::GetText {
                text_getter: TextGetter::EntryText,
                target: self.control().address(),
            }),
    {
        Call::GetText { text_getter: TextGetter::EntryText, target: self.inner.as_ptr() }
    }

    /// The call that sets the text displayed in this entry, or the error where
    /// the text holds a zero byte.
    pub fn set_text(&self, text: &str) -> (r: Result<Call, Error>)
        ensures
            r is Ok <==> !has_nul(text.spec_bytes()),
            r matches Ok(call) ==> call.is_set_text(
                TextSetter::EntrySetText,
                self.control().address(),
                text.spec_bytes(),
            ),
            r matches Err(e) ==> e.is_nul_in(text.spec_bytes()),
    {
        set_text_call(TextSetter::EntrySetText, self.inner.as_ptr(), text)
    }

    /// Sets the callback for when the text within this entry changes, in place
    /// of the one set before, and gives the call that registers it.
    pub fn on_changed(&mut self, callback: F) -> (call: Call)
        ensures
            final(self).changed_callback() == Some(callback),
            final(self).control() == old(self).control(),
            call == (Call::Register {
                event: Event::EntryChanged,
                target: old(self).control().address(),
            }),
    {
        let _ = self.on_changed.set(callback);
        Call::Register { event: Event::EntryChanged, target: self.inner.as_ptr() }
    }

    /// The callback to run now that the text within this entry changed.
    pub fn on_changed_callback(&mut self) -> (callback: Option<&mut F>)
        ensures
            match callback {
                Some(f) => old(self).changed_callback() == Some(*f)
                    && final(self).changed_callback() == Some(*final(f)),
                None => old(self).changed_callback() is None
                    && final(self).changed_callback() is None,
            },
            final(self).control() == old(self).control(),
    {
        self.on_changed.get_mut()
    }

    /// The call that asks whether this entry is read-only. The reply is a truth
    /// value in the toolkit's form.
    pub fn is_read_only(&self) -> (call: Call)
        ensures
            call == (Call::GetInt {
                getter: Getter::EntryReadOnly,
                target: self.control().address(),
            }),
    {
        Call::GetInt { getter: Getter::EntryReadOnly, target: self.inner.as_ptr() }
    }

    /// The call that sets whether this entry is read-only.
    pub fn set_read_only(&self, value: bool) -> (call: Call)
        ensures
            call == (Call::SetInt {
                setter: Setter::EntrySetReadOnly,
                target: self.control().address(),
                value: int_of_bool(value),
            }),
    {
        set_bool_call(Setter::EntrySetReadOnly, self.inner.as_ptr(), value)
    }
}

} // verus!
