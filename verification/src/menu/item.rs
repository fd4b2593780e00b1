//! An item within a menu.

use vstd::prelude::*;

use crate::call::set_bool_call;
use crate::call::Action;
use crate::call::Call;
use crate::call::Event;
use crate::call::Getter;
use crate::call::Setter;
use crate::callback::Slot;
use crate::ffi::Address;
use crate::ffi::int_of_bool;

verus! {

/// An item within a menu.
///
/// An item is no control. The toolkit keeps it, and calls back through its
/// slot, until the end of its work, so an item lives in the arena of the
/// session and this side never asks for its destruction.
#[derive(Debug)]
pub struct Item<F> {
    ptr: Address,
    on_clicked: Slot<F>,
}

impl<F> Item<F> {
    /// The address of the native menu item.
    pub closed spec fn address(self) -> usize {
        self.ptr.value()
    }

    /// The callback that runs when this item is clicked, if one is set.
    pub closed spec fn clicked_callback(self) -> Option<F> {
        self.on_clicked.held()
    }

    /// Wraps the native menu item at `ptr`.
    pub fn new(ptr: usize) -> (item: Self)
        requires
            ptr != 0,
        ensures
            item.address() == ptr,
            item.clicked_callback() is None,
    {
        Item { ptr: Address::new(ptr), on_clicked: Slot::empty() }
    }

    /// The address of the native menu item. It is not zero.
    pub fn as_ptr(&self) -> (ptr: usize)
        ensures
            ptr == self.address(),
            ptr != 0,
    {
        self.ptr.get()
    }

    /// The call that makes this item interactable. Items are so by default.
    pub fn enable(&self) -> (call: Call)
        ensures
            call == (Call::Do { action: Action::MenuItemEnable, target: self.address() }),
    {
        Call::Do { action: Action::MenuItemEnable, target: self.ptr.get() }
    }

    /// The call that makes this item uninteractable.
    pub fn disable(&self) -> (call: Call)
        ensures
            call == (Call::Do { action: Action::MenuItemDisable, target: self.address() }),
    {
        Call::Do { action: Action::MenuItemDisable, target: self.ptr.get() }
    }

    /// Sets the callback for when this item is clicked, in place of the one
    /// set before, and gives the call that registers it.
    pub fn on_clicked(&mut self, callback: F) -> (call: Call)
        ensures
            final(self).clicked_callback() == Some(callback),
            final(self).address() == old(self).address(),
            call == (Call::Register { event: Event::MenuItemClicked, target: old(self).address() }),
    {
        let _ = self.on_clicked.set(callback);
        Call::Register { event: Event::MenuItemClicked, target: self.ptr.get() }
    }

    /// The callback to run now that this item was clicked.
    pub fn on_clicked_callback(&mut self) -> (callback: Option<&mut F>)
        ensures
            match callback {
                Some(f) => old(self).clicked_callback() == Some(*f)
                    && final(self).clicked_callback() == Some(*final(f)),
                None => old(self).clicked_callback() is None
                    && final(self).clicked_callback() is None,
            },
            final(self).address() == old(self).address(),
    {
        self.on_clicked.get_mut()
    }

    /// The call that asks whether this item is checked. The reply is a truth
    /// value in the toolkit's form. Items are unchecked by default.
    pub fn is_checked(&self) -> (call: Call)
        ensures
            call == (Call::GetInt { getter: Getter::MenuItemChecked, target: self.address() }),
    {
        Call::GetInt { getter: Getter::MenuItemChecked, target: self.ptr.get() }
    }

    /// The call that sets whether this item is checked.
    pub fn set_checked(&self, value: bool) -> (call: Call)
        ensures
            call == (Call::SetInt {
                setter: Setter::MenuItemSetChecked,
                target: self.address(),
                value: int_of_bool(value),
            }),
    {
        set_bool_call(Setter::MenuItemSetChecked, self.ptr.get(), value)
    }
}

} // verus!
