//! A drop-down menu within a menubar that may contain additional menu items.

pub mod item;

use vstd::prelude::*;
use vstd::string::*;

use crate::call::Action;
use crate::call::Call;
use crate::call::Constructor;
use crate::error::Error;
use crate::ffi::Address;
use crate::ffi::c_text;
use crate::ffi::create_c_string;
use crate::ffi::has_nul;
use crate::menu::item::Item;
use crate::ui::Ui;

verus! {

impl Ui {
    /// The call that makes a menu with the given name, or the error where the
    /// name holds a zero byte.
    pub fn create_menu(&self, name: &str) -> (r: Result<Call, Error>)
        ensures
            r is Ok <==> !has_nul(name.spec_bytes()),
            r matches Ok(call) ==> call matches Call::New(Constructor::Menu { name: n }) && n@
                == c_text(name.spec_bytes()),
            r matches Err(e) ==> e.is_nul_in(name.spec_bytes()),
    {
        match create_c_string(name) {
            Ok(name) => Ok(Call::New(Constructor::Menu { name })),
            Err(e) => Err(Error::ConvertRustString(e)),
        }
    }

    /// Reads the reply to the constructor of a menu: the menu, or the failure
    /// of the constructor where the toolkit made none.
    pub fn adopt_menu<'ui>(&'ui self, constructor: &Constructor, obj: usize) -> (r: Result<
        Menu<'ui>,
        Error,
    >)
        ensures
            obj == 0 <==> r is Err,
            r matches Ok(menu) ==> menu.address() == obj,
            r matches Err(e) ==> e.is_failure_of(constructor.name_spec()),
    {
        match Self::object_from_reply(constructor, obj) {
            Ok(ptr) => Ok(Menu { ptr: Address::new(ptr), ui: self }),
            Err(e) => Err(e),
        }
    }
}

/// An application-wide drop-down menu within a menubar that may contain
/// additional menu items.
///
/// A menu is no control. The toolkit keeps it until the end of its work and
/// offers no way to destroy it, so this side never asks for that.
pub struct Menu<'ui> {
    ptr: Address,
    ui: &'ui Ui,
}

impl<'ui> Menu<'ui> {
    /// The address of the native menu.
    pub closed spec fn address(self) -> usize {
        self.ptr.value()
    }

    /// The address of the native menu. It is not zero.
    pub fn as_ptr(&self) -> (ptr: usize)
        ensures
            ptr == self.address(),
            ptr != 0,
    {
        self.ptr.get()
    }

    /// The call that appends a horizontal separator.
    pub fn push_separator(&self) -> (call: Call)
        ensures
            call == (Call::Do { action: Action::MenuAppendSeparator, target: self.address() }),
    {
        Call::Do { action: Action::MenuAppendSeparator, target: self.ptr.get() }
    }

    /// The call that appends a new item with the given text, or the error
    /// where the text holds a zero byte. `adopt_item` reads the reply.
    pub fn push_new_item(&self, text: &str) -> (r: Result<Call, Error>)
        ensures
            r is Ok <==> !has_nul(text.spec_bytes()),
            r matches Ok(call) ==> call matches Call::New(Constructor::MenuItem { menu, text: t })
                && menu == self.address() && t@ == c_text(text.spec_bytes()),
            r matches Err(e) ==> e.is_nul_in(text.spec_bytes()),
    {
        match create_c_string(text) {
            Ok(text) => Ok(Call::New(Constructor::MenuItem { menu: self.ptr.get(), text })),
            Err(e) => Err(Error::ConvertRustString(e)),
        }
    }

    /// The call that appends a new item with the given text that can be
    /// checked, or the error where the text holds a zero byte. `adopt_item`
    /// reads the reply.
    pub fn push_new_check_item(&self, text: &str) -> (r: Result<Call, Error>)
        ensures
            r is Ok <==> !has_nul(text.spec_bytes()),
            r matches Ok(call) ==> call matches Call::New(
                Constructor::MenuCheckItem { menu, text: t },
            ) && menu == self.address() && t@ == c_text(text.spec_bytes()),
            r matches Err(e) ==> e.is_nul_in(text.spec_bytes()),
    {
        match create_c_string(text) {
            Ok(text) => Ok(Call::New(Constructor::MenuCheckItem { menu: self.ptr.get(), text })),
            Err(e) => Err(Error::ConvertRustString(e)),
        }
    }

    /// The call that appends a new item that exits the application when it is
    /// clicked. `adopt_item` reads the reply.
    pub fn push_new_quit_item(&self) -> (call: Call)
        ensures
            call == Call::New(Constructor::MenuQuitItem { menu: self.address() }),
    {
        Call::New(Constructor::MenuQuitItem { menu: self.ptr.get() })
    }

    /// The call that appends a new item for the application's preferences.
    /// `adopt_item` reads the reply.
    pub fn push_new_preferences_item(&self) -> (call: Call)
        ensures
            call == Call::New(Constructor::MenuPreferencesItem { menu: self.address() }),
    {
        Call::New(Constructor::MenuPreferencesItem { menu: self.ptr.get() })
    }

    /// The call that appends a new item that tells about the application.
    /// `adopt_item` reads the reply.
    pub fn push_new_about_item(&self) -> (call: Call)
        ensures
            call == Call::New(Constructor::MenuAboutItem { menu: self.address() }),
    {
        Call::New(Constructor::MenuAboutItem { menu: self.ptr.get() })
    }

    /// Reads the reply to a call that appends an item: the item, kept in the
    /// arena of the session for as long as that lasts, or the failure of the
    /// call where the toolkit made no item.
    pub fn adopt_item<F>(&self, constructor: &Constructor, obj: usize) -> (r: Result<
        &'ui mut Item<F>,
        Error,
    >)
        ensures
            obj == 0 <==> r is Err,
            r matches Ok(item) ==> item.address() == obj && item.clicked_callback() is None,
            r matches Err(e) ==> e.is_failure_of(constructor.name_spec()),
    {
        match Ui::object_from_reply(constructor, obj) {
            Ok(ptr) => Ok(self.ui.alloc_object(Item::new(ptr))),
            Err(e) => Err(e),
        }
    }
}

} // verus!
