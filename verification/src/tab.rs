//! A container that shows one of its pages at a time, chosen by its name.

use vstd::prelude::*;
use vstd::string::*;

use crate::call::Call;
use crate::call::Constructor;
use crate::call::Getter;
use crate::call::IndexedGetter;
use crate::call::PairSetter;
use crate::call::Setter;
use crate::control::Control;
use crate::control::Op;
use crate::error::Error;
use crate::ffi::bool_to_int;
use crate::ffi::create_c_string;
use crate::ffi::has_nul;
use crate::ffi::int_of_bool;
use crate::ffi::to_u16;
use crate::ui::FromControl;
use crate::ui::Ui;

verus! {

impl Ui {
    /// The call that makes a tab.
    pub fn create_tab(&self) -> (call: Call)
        ensures
            call == Call::New(Constructor::Tab),
    {
        Call::New(Constructor::Tab)
    }
}

/// A container that shows one of its pages at a time, chosen by its name.
#[derive(Debug, PartialEq, Eq)]
pub struct Tab {
    inner: Control,
}

impl FromControl for Tab {
    closed spec fn control(&self) -> Control {
        self.inner
    }

    open spec fn is_fresh(&self) -> bool {
        true
    }

    fn from_control(control: Control) -> (widget: Self) {
        Tab { inner: control }
    }
}

impl Tab {
    /// Wraps the native tab at `ptr`, which this side is to destroy.
    pub fn new(ptr: usize) -> (widget: Self)
        requires
            ptr != 0,
        ensures
            widget.control().address() == ptr,
            !widget.control().child(),
            widget.is_fresh(),
    {
        Self::from_control(Control::new(ptr))
    }

    /// The address of the native tab. It is not zero.
    pub fn as_ptr(&self) -> (ptr: usize)
        ensures
            ptr == self.control().address(),
            ptr != 0,
    {
        self.inner.as_ptr()
    }

    /// The control inside the tab.
    pub fn as_control(&self) -> (control: &Control)
        ensures
            *control == self.control(),
    {
        &self.inner
    }

    /// Gives up the tab for the control inside it.
    pub fn into_control(self) -> (control: Control)
        ensures
            control == self.control(),
    {
        self.inner
    }

    /// The control inside the tab, to change it.
    pub fn as_control_mut(&mut self) -> (control: &mut Control)
        ensures
            *control == old(self).control(),
            final(self).control() == *final(control),
    {
        &mut self.inner
    }

    /// The call that deletes the page at the given index. The control on it is
    /// not destroyed by that.
    pub fn remove_page(&self, index: u16) -> (call: Call)
        ensures
            call == (Call::SetInt {
                setter: Setter::TabDelete,
                target: self.control().address(),
                value: index as i32,
            }),
    {
        Call::SetInt { setter: Setter::TabDelete, target: self.inner.as_ptr(), value: index as i32 }
    }

    /// The call that asks for the number of pages contained within this tab.
    /// The reply is a count in the toolkit's form.
    pub fn page_count(&self) -> (call: Call)
        ensures
            call == (Call::GetInt {
                getter: Getter::TabNumPages,
                target: self.control().address(),
            }),
    {
        Call::GetInt { getter: Getter::TabNumPages, target: self.inner.as_ptr() }
    }

    /// The call that asks whether the page at the given index is margined. The
    /// reply is a truth value in the toolkit's form.
    pub fn is_page_margined(&self, index: u16) -> (call: Call)
        ensures
            call == (Call::GetIntAt {
                indexed_getter: IndexedGetter::TabMargined,
                target: self.control().address(),
                index: index as i32,
            }),
    {
        Call::GetIntAt {
            indexed_getter: IndexedGetter::TabMargined,
            target: self.inner.as_ptr(),
            index: index as i32,
        }
    }

    /// The call that sets whether the page at the given index is margined.
    pub fn set_page_margined(&self, page: u16, value: bool) -> (call: Call)
        ensures
            call == (Call::SetPair {
                pair_setter: PairSetter::TabSetMargined,
                target: self.control().address(),
                first: page as i32,
                second: int_of_bool(value),
            }),
    {
        Call::SetPair {
            pair_setter: PairSetter::TabSetMargined,
            target: self.inner.as_ptr(),
            first: page as i32,
            second: bool_to_int(value),
        }
    }

    /// Makes `control` the content of a new last page with the given name,
    /// so that the tab destroys the control from now on. The result is the
    /// index of the new page and the call that tells the toolkit.
    /// `page_count` is the reply to `page_count`, made just before.
    ///
    /// Where the name holds a zero byte, the result is the error: no call is
    /// asked for, and the control stays with whoever owned it.
    ///
    /// A later removal may make the index out of date.
    pub fn push_new_page(&self, name: &str, control: &mut Control, page_count: i32) -> (r: Result<
        (u16, Call),
        Error,
    >)
        requires
            0 <= page_count <= u16::MAX,
        ensures
            r is Ok <==> !has_nul(name.spec_bytes()),
            r is Ok ==> *final(control) == old(control).after(Op::MakeChild)
                && final(control).child(),
            r is Err ==> *final(control) == *old(control),
            final(control).address() == old(control).address(),
            r matches Ok(pair) ==> pair.0 == page_count && pair.1.is_tab_append(
                self.control().address(),
                name.spec_bytes(),
                old(control).address(),
            ),
            r matches Err(e) ==> e.is_nul_in(name.spec_bytes()),
    {
        let index = to_u16(page_count);
        match create_c_string(name) {
            Ok(name) => {
                control.make_child();
                Ok(
                    (
                        index,
                        Call::TabAppend {
                            parent: self.inner.as_ptr(),
                            name,
                            child: control.as_ptr(),
                        },
                    ),
                )
            },
            Err(e) => Err(Error::ConvertRustString(e)),
        }
    }

    /// Makes `control` the content of a new page with the given name, before
    /// the page at `before`, so that the tab destroys the control from now on.
    /// The result is the number of pages that there were before and the call
    /// that tells the toolkit. `page_count` is the reply to `page_count`, made
    /// just before.
    ///
    /// Where the name holds a zero byte, the result is the error: no call is
    /// asked for, and the control stays with whoever owned it.
    pub fn insert_new_page(&self, name: &str, before: u16, control: &mut Control, page_count: i32) -> (r: Result<
        (u16, Call),
        Error,
    >)
        requires
            0 <= page_count <= u16::MAX,
        ensures
            r is Ok <==> !has_nul(name.spec_bytes()),
            r is Ok ==> *final(control) == old(control).after(Op::MakeChild)
                && final(control).child(),
            r is Err ==> *final(control) == *old(control),
            final(control).address() == old(control).address(),
            r matches Ok(pair) ==> pair.0 == page_count && pair.1.is_tab_insert_at(
                self.control().address(),
                name.spec_bytes(),
                before as i32,
                old(control).address(),
            ),
            r matches Err(e) ==> e.is_nul_in(name.spec_bytes()),
    {
        let index = to_u16(page_count);
        match create_c_string(name) {
            Ok(name) => {
                control.make_child();
                Ok(
                    (
                        index,
                        Call::TabInsertAt {
                            parent: self.inner.as_ptr(),
                            name,
                            before: before as i32,
                            child: control.as_ptr(),
                        },
                    ),
                )
            },
            Err(e) => Err(Error::ConvertRustString(e)),
        }
    }
}

} // verus!
