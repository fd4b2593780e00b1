//! A drop-down menu of mutually-exclusive selectable items.

use vstd::prelude::*;
use vstd::string::*;

use crate::call::Action;
use crate::call::Call;
use crate::call::Constructor;
use crate::call::Event;
use crate::call::Getter;
use crate::call::Setter;
use crate::call::TextSetter;
use crate::call::set_text_call;
use crate::callback::Slot;
use crate::control::Control;
use crate::error::Error;
use crate::ffi::c_text;
use crate::ffi::create_c_string;
use crate::ffi::has_nul;
use crate::ffi::to_u16;
use crate::ui::FromControl;
use crate::ui::Ui;

verus! {

impl Ui {
    /// The call that makes a combobox.
    pub fn create_combobox(&self) -> (call: Call)
        ensures
            call == Call::New(Constructor::Combobox),
    {
        Call::New(Constructor::Combobox)
    }
}

/// A drop-down menu of mutually-exclusive selectable items.
#[derive(Debug)]
pub struct Combobox<F> {
    inner: Control,
    on_item_selected: Slot<F>,
}

impl<F> FromControl for Combobox<F> {
    closed spec fn control(&self) -> Control {
        self.inner
    }

    open spec fn is_fresh(&self) -> bool {
        self.item_selected_callback() is None
    }

    fn from_control(control: Control) -> (widget: Self) {
        Combobox { inner: control, on_item_selected: Slot::empty() }
    }
}

impl<F> Combobox<F> {
    /// The callback that runs when an item is selected, if one is set.
    pub closed spec fn item_selected_callback(&self) -> Option<F> {
        self.on_item_selected.held()
    }

    /// Wraps the native combobox at `ptr`, which this side is to destroy.
    pub fn new(ptr: usize) -> (widget: Self)
        requires
            ptr != 0,
        ensures
            widget.control().address() == ptr,
            !widget.control().child(),
            widget.is_fresh(),
    {
        Self::from_control(Control::new(ptr))
    }

    /// The address of the native combobox. It is not zero.
    pub fn as_ptr(&self) -> (ptr: usize)
        ensures
            ptr == self.control().address(),
            ptr != 0,
    {
        self.inner.as_ptr()
    }

    /// The control inside the combobox.
    pub fn as_control(&self) -> (control: &Control)
        ensures
            *control == self.control(),
    {
        &self.inner
    }

    /// Gives up the combobox for the control inside it.
    pub fn into_control(self) -> (control: Control)
        ensures
            control == self.control(),
    {
        self.inner
    }

    /// The control inside the combobox, to change it.
    pub fn as_control_mut(&mut self) -> (control: &mut Control)
        ensures
            *control == old(self).control(),
            final(self).control() == *final(control),
            final(self).item_selected_callback() == old(self).item_selected_callback(),
    {
        &mut self.inner
    }

    /// The call that appends a new item with the given text, or the error where
    /// the text holds a zero byte. `index_of_pushed_item` gives the index of
    /// the item.
    pub fn push_new_item(&self, text: &str) -> (r: Result<Call, Error>)
        ensures
            r is Ok <==> !has_nul(text.spec_bytes()),
            r matches Ok(call) ==> call.is_set_text(
                TextSetter::ComboboxAppend,
                self.control().address(),
                text.spec_bytes(),
            ),
            r matches Err(e) ==> e.is_nul_in(text.spec_bytes()),
    {
        set_text_call(TextSetter::ComboboxAppend, self.inner.as_ptr(), text)
    }

    /// The call that removes the item at the given index. The indices of the
    /// items behind it change by that.
    pub fn remove_item(&self, index: u16) -> (call: Call)
        ensures
            call == (Call::SetInt {
                setter: Setter::ComboboxDelete,
                target: self.control().address(),
                value: index as i32,
            }),
    {
        Call::SetInt {
            setter: Setter::ComboboxDelete,
            target: self.inner.as_ptr(),
            value: index as i32,
        }
    }

    /// The call that removes all items.
    pub fn clear(&self) -> (call: Call)
        ensures
            call == (Call::Do { action: Action::ComboboxClear, target: self.control().address() }),
    {
        Call::Do { action: Action::ComboboxClear, target: self.inner.as_ptr() }
    }

    /// The call that asks for the number of items that this combobox contains.
    /// The reply is a count in the toolkit's form. It is 0 at first.
    pub fn item_count(&self) -> (call: Call)
        ensures
            call == (Call::GetInt {
                getter: Getter::ComboboxNumItems,
                target: self.control().address(),
            }),
    {
        Call::GetInt { getter: Getter::ComboboxNumItems, target: self.inner.as_ptr() }
    }

    /// The call that asks for the index of the item that is selected. The reply
    /// is a count in the toolkit's form.
    pub fn selected_item(&self) -> (call: Call)
        ensures
            call == (Call::GetInt {
                getter: Getter::ComboboxSelected,
                target: self.control().address(),
            }),
    {
        Call::GetInt { getter: Getter::ComboboxSelected, target: self.inner.as_ptr() }
    }

    /// The call that selects the item with the given index.
    pub fn select_item(&self, item: u16) -> (call: Call)
        ensures
            call == (Call::SetInt {
                setter: Setter::ComboboxSetSelected,
                target: self.control().address(),
                value: item as i32,
            }),
    {
        Call::SetInt {
            setter: Setter::ComboboxSetSelected,
            target: self.inner.as_ptr(),
            value: item as i32,
        }
    }

    /// Sets the callback for when an item is selected, in place of the one set
    /// before, and gives the call that registers it.
    pub fn on_item_selected(&mut self, callback: F) -> (call: Call)
        ensures
            final(self).item_selected_callback() == Some(callback),
            final(self).control() == old(self).control(),
            call == (Call::Register {
                event: Event::ComboboxSelected,
                target: old(self).control().address(),
            }),
    {
        let _ = self.on_item_selected.set(callback);
        Call::Register { event: Event::ComboboxSelected, target: self.inner.as_ptr() }
    }

    /// The callback to run now that an item was selected.
    pub fn on_item_selected_callback(&mut self) -> (callback: Option<&mut F>)
        ensures
            match callback {
                Some(f) => old(self).item_selected_callback() == Some(*f)
                    && final(self).item_selected_callback() == Some(*final(f)),
                None => old(self).item_selected_callback() is None
                    && final(self).item_selected_callback() is None,
            },
            final(self).control() == old(self).control(),
    {
        self.on_item_selected.get_mut()
    }

    /// The index of the item that `push_new_item` appended: the last one.
    /// `item_count` is the reply to `item_count`, made after the item was
    /// appended.
    pub fn index_of_pushed_item(item_count: i32) -> (index: u16)
        requires
            1 <= item_count <= u16::MAX,
        ensures
            index == item_count - 1,
    {
        to_u16(item_count) - 1
    }

    /// The call that inserts a new item with the given text before the item at
    /// `before`, with the index of the new item, which is `before`; or the error
    /// where the text holds a zero byte.
    pub fn insert_new_item(&self, text: &str, before: u16) -> (r: Result<(u16, Call), Error>)
        ensures
            r is Ok <==> !has_nul(text.spec_bytes()),
            r matches Ok(pair) ==> pair.0 == before && (pair.1 matches Call::ComboboxInsertAt {
                target,
                index,
                text: t,
            } && target == self.control().address() && index == before && t@ == c_text(
                text.spec_bytes(),
            )),
            r matches Err(e) ==> e.is_nul_in(text.spec_bytes()),
    {
        match create_c_string(text) {
            Ok(text) => Ok(
                (
                    before,
                    Call::ComboboxInsertAt { target: self.inner.as_ptr(), index: before as i32, text },
                ),
            ),
            Err(e) => Err(Error::ConvertRustString(e)),
        }
    }
}

} // verus!
