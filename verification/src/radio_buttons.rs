//! A set of mutually-exclusive selectable items that counts what it holds.

use vstd::prelude::*;
use vstd::string::*;

use crate::call::Call;
use crate::call::Constructor;
use crate::call::Event;
use crate::call::Getter;
use crate::call::Setter;
use crate::call::TextSetter;
use crate::call::set_text_call;
use crate::callback::Slot;
use crate::control::Control;
use crate::error::Error;
use crate::ffi::has_nul;
use crate::ui::FromControl;
use crate::ui::Ui;

verus! {

impl Ui {
    /// The call that makes a set of radio buttons.
    pub fn create_radio_buttons(&self) -> (call: Call)
        ensures
            call == Call::New(Constructor::RadioButtons),
    {
        Call::New(Constructor::RadioButtons)
    }
}

/// A set of mutually-exclusive selectable items. The toolkit does not tell how
/// many items it holds, so the widget counts them as they are pushed.
#[derive(Debug)]
pub struct RadioButtons<F> {
    inner: Control,
    on_item_selected: Slot<F>,
    item_count: u16,
}

impl<F> FromControl for RadioButtons<F> {
    closed spec fn control(&self) -> Control {
        self.inner
    }

    open spec fn is_fresh(&self) -> bool {
        self.item_selected_callback() is None && self.item_count_spec() == 0
    }

    fn from_control(control: Control) -> (widget: Self) {
        RadioButtons { inner: control, on_item_selected: Slot::empty(), item_count: 0 }
    }
}

impl<F> RadioButtons<F> {
    /// The callback that runs when an item is selected, if one is set.
    pub closed spec fn item_selected_callback(&self) -> Option<F> {
        self.on_item_selected.held()
    }

    /// The number of items that were pushed.
    pub closed spec fn item_count_spec(&self) -> u16 {
        self.item_count
    }

    /// Wraps the native set of radio buttons at `ptr`, which this side is to
    /// destroy.
    pub fn new(ptr: usize) -> (widget: Self)
        requires
            ptr != 0,
        ensures
            widget.control().address() == ptr,
            !widget.control().child(),
            widget.is_fresh(),
    {
        Self::from_control(Control::new(ptr))
    }

    /// The address of the native set of radio buttons. It is not zero.
    pub fn as_ptr(&self) -> (ptr: usize)
        ensures
            ptr == self.control().address(),
            ptr != 0,
    {
        self.inner.as_ptr()
    }

    /// The control inside the set of radio buttons.
    pub fn as_control(&self) -> (control: &Control)
        ensures
            *control == self.control(),
    {
        &self.inner
    }

    /// Gives up the set of radio buttons for the control inside it.
    pub fn into_control(self) -> (control: Control)
        ensures
            control == self.control(),
    {
        self.inner
    }

    /// The control inside the set of radio buttons, to change it.
    pub fn as_control_mut(&mut self) -> (control: &mut Control)
        ensures
            *control == old(self).control(),
            final(self).control() == *final(control),
            final(self).item_selected_callback() == old(self).item_selected_callback(),
            final(self).item_count_spec() == old(self).item_count_spec(),
    {
        &mut self.inner
    }

    /// The call that asks for the index of the item that is selected. The reply
    /// is a count in the toolkit's form.
    pub fn selected_item(&self) -> (call: Call)
        ensures
            call == (Call::GetInt {
                getter: Getter::RadioButtonsSelected,
                target: self.control().address(),
            }),
    {
        Call::GetInt { getter: Getter::RadioButtonsSelected, target: self.inner.as_ptr() }
    }

    /// The call that selects the item with the given index.
    pub fn set_selected_item(&self, index: u16) -> (call: Call)
        ensures
            call == (Call::SetInt {
                setter: Setter::RadioButtonsSetSelected,
                target: self.control().address(),
                value: index as i32,
            }),
    {
        Call::SetInt {
            setter: Setter::RadioButtonsSetSelected,
            target: self.inner.as_ptr(),
            value: index as i32,
        }
    }

    /// Sets the callback for when an item is selected, in place of the one set
    /// before, and gives the call that registers it.
    pub fn on_item_selected(&mut self, callback: F) -> (call: Call)
        ensures
            final(self).item_selected_callback() == Some(callback),
            final(self).control() == old(self).control(),
            final(self).item_count_spec() == old(self).item_count_spec(),
            call == (Call::Register {
                event: Event::RadioButtonsSelected,
                target: old(self).control().address(),
            }),
    {
        let _ = self.on_item_selected.set(callback);
        Call::Register { event: Event::RadioButtonsSelected, target: self.inner.as_ptr() }
    }

    /// The callback to run now that an item was selected.
    pub fn on_item_selected_callback(&mut self) -> (callback: Option<&mut F>)
        ensures
            match callback {
                Some(f) => old(self).item_selected_callback() == Some(*f)
                    && final(self).item_selected_callback() == Some(*final(f)),
                None => old(self).item_selected_callback() is None
                    && final(self).item_selected_callback() is None,
            },
            final(self).control() == old(self).control(),
            final(self).item_count_spec() == old(self).item_count_spec(),
    {
        self.on_item_selected.get_mut()
    }

    /// The number of items that were pushed.
    pub fn item_count(&self) -> (count: u16)
        ensures
            count == self.item_count_spec(),
    {
        self.item_count
    }

    /// The call that appends a new item with the given text, with the index of
    /// the item; or the error where the text holds a zero byte, and then
    /// nothing is counted.
    pub fn push_new_item(&mut self, text: &str) -> (r: Result<(u16, Call), Error>)
        requires
            old(self).item_count_spec() < u16::MAX,
        ensures
            final(self).control() == old(self).control(),
            final(self).item_selected_callback() == old(self).item_selected_callback(),
            r is Ok <==> !has_nul(text.spec_bytes()),
            r matches Ok(pair) ==> pair.0 == old(self).item_count_spec()
                && final(self).item_count_spec() == old(self).item_count_spec() + 1
                && pair.1.is_set_text(
                TextSetter::RadioButtonsAppend,
                old(self).control().address(),
                text.spec_bytes(),
            ),
            r matches Err(e) ==> e.is_nul_in(text.spec_bytes()) && final(self).item_count_spec()
                == old(self).item_count_spec(),
    {
        match set_text_call(TextSetter::RadioButtonsAppend, self.inner.as_ptr(), text) {
            Ok(call) => {
                let index = self.item_count;
                self.item_count = index + 1;
                Ok((index, call))
            },
            Err(e) => Err(e),
        }
    }
}

} // verus!
