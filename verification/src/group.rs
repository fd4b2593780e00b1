//! A titled wrapper around a child control.

use vstd::prelude::*;
use vstd::string::*;

use crate::call::Attachment;
use crate::call::Call;
use crate::call::Constructor;
use crate::call::Getter;
use crate::call::Setter;
use crate::call::TextGetter;
use crate::call::TextSetter;
use crate::call::set_bool_call;
use crate::call::set_text_call;
use crate::control::Control;
use crate::control::Op;
use crate::error::Error;
use crate::ffi::c_text;
use crate::ffi::create_c_string;
use crate::ffi::has_nul;
use crate::ffi::int_of_bool;
use crate::ffi::text_from_c;
use crate::ui::FromControl;
use crate::ui::Ui;

verus! {

impl Ui {
    /// The call that makes a group with the given title, or the error where the
    /// text holds a zero byte.
    pub fn create_group(&self, title: &str) -> (r: Result<Call, Error>)
        ensures
            r is Ok <==> !has_nul(title.spec_bytes()),
            r matches Ok(call) ==> call matches Call::New(Constructor::Group { title: t }) && t@
                == c_text(title.spec_bytes()),
            r matches Err(e) ==> e.is_nul_in(title.spec_bytes()),
    {
        match create_c_string(title) {
            Ok(title) => Ok(Call::New(Constructor::Group { title })),
            Err(e) => Err(Error::ConvertRustString(e)),
        }
    }
}

/// A titled wrapper around a child control.
#[derive(Debug, PartialEq, Eq)]
pub struct Group {
    inner: Control,
}

impl FromControl for Group {
    closed spec fn control(&self) -> Control {
        self.inner
    }

    open spec fn is_fresh(&self) -> bool {
        true
    }

    fn from_control(control: Control) -> (widget: Self) {
        Group { inner: control }
    }
}

impl Group {
    /// Wraps the native group at `ptr`, which this side is to destroy.
    pub fn new(ptr: usize) -> (widget: Self)
        requires
            ptr != 0,
        ensures
            widget.control().address() == ptr,
            !widget.control().child(),
            widget.is_fresh(),
    {
        Self::from_control(Control::new(ptr))
    }

    /// The address of the native group. It is not zero.
    pub fn as_ptr(&self) -> (ptr: usize)
        ensures
            ptr == self.control().address(),
            ptr != 0,
    {
        self.inner.as_ptr()
    }

    /// The control inside the group.
    pub fn as_control(&self) -> (control: &Control)
        ensures
            *control == self.control(),
    {
        &self.inner
    }

    /// Gives up the group for the control inside it.
    pub fn into_control(self) -> (control: Control)
        ensures
            control == self.control(),
    {
        self.inner
    }

    /// The control inside the group, to change it.
    pub fn as_control_mut(&mut self) -> (control: &mut Control)
        ensures
            *control == old(self).control(),
            final(self).control() == *final(control),
    {
        &mut self.inner
    }

    /// The call that asks for the title of this group. The reply is text in the
    /// toolkit's form, read by `text_from_c` or `raw_text_from_c`.
    pub fn title(&self) -> (call: Call)
        ensures
            call == (Call::GetText {
                text_getter: TextGetter::GroupTitle,
                target: self.control().address(),
            }),
    {
        Call::GetText { text_getter: TextGetter::GroupTitle, target: self.inner.as_ptr() }
    }

    /// The call that sets the title of this group, or the error where the text
    /// holds a zero byte.
    pub fn set_title(&self, title: &str) -> (r: Result<Call, Error>)
        ensures
            r is Ok <==> !has_nul(title.spec_bytes()),
            r matches Ok(call) ==> call.is_set_text(
                TextSetter::GroupSetTitle,
                self.control().address(),
                title.spec_bytes(),
            ),
            r matches Err(e) ==> e.is_nul_in(title.spec_bytes()),
    {
        set_text_call(TextSetter::GroupSetTitle, self.inner.as_ptr(), title)
    }

    /// Makes `child` the child control of this group, which destroys it from
    /// now on, and gives the call that tells the toolkit.
    pub fn set_child(&self, child: &mut Control) -> (call: Call)
        ensures
            *final(child) == old(child).after(Op::MakeChild),
            final(child).child(),
            final(child).address() == old(child).address(),
            call == (Call::Attach {
                attachment: Attachment::GroupSetChild,
                parent: self.control().address(),
                child: old(child).address(),
            }),
    {
        child.make_child();
        Call::Attach {
            attachment: Attachment::GroupSetChild,
            parent: self.inner.as_ptr(),
            child: child.as_ptr(),
        }
    }

    /// The call that asks whether this group has margins. The reply is a truth
    /// value in the toolkit's form. Groups are unmargined by default.
    pub fn is_margined(&self) -> (call: Call)
        ensures
            call == (Call::GetInt {
                getter: Getter::GroupMargined,
                target: self.control().address(),
            }),
    {
        Call::GetInt { getter: Getter::GroupMargined, target: self.inner.as_ptr() }
    }

    /// The call that sets whether this group has margins.
    pub fn set_margined(&self, value: bool) -> (call: Call)
        ensures
            call == (Call::SetInt {
                setter: Setter::GroupSetMargined,
                target: self.control().address(),
                value: int_of_bool(value),
            }),
    {
        set_bool_call(Setter::GroupSetMargined, self.inner.as_ptr(), value)
    }
}

} // verus!
