//! A box that lays its children out along one axis.

use vstd::prelude::*;

use crate::call::Call;
use crate::call::Constructor;
use crate::call::Getter;
use crate::call::Setter;
use crate::call::set_bool_call;
use crate::control::Control;
use crate::control::Op;
use crate::ffi::bool_to_int;
use crate::ffi::int_of_bool;
use crate::ui::FromControl;
use crate::ui::Ui;

verus! {

impl Ui {
    /// The call that makes a horizontal box.
    pub fn create_horizontal_box(&self) -> (call: Call)
        ensures
            call == Call::New(Constructor::HorizontalBox),
    {
        Call::New(Constructor::HorizontalBox)
    }

    /// The call that makes a vertical box.
    pub fn create_vertical_box(&self) -> (call: Call)
        ensures
            call == Call::New(Constructor::VerticalBox),
    {
        Call::New(Constructor::VerticalBox)
    }
}

/// A box that lays its children out along one axis.
#[derive(Debug, PartialEq, Eq)]
pub struct UniBox {
    inner: Control,
}

impl FromControl for UniBox {
    closed spec fn control(&self) -> Control {
        self.inner
    }

    open spec fn is_fresh(&self) -> bool {
        true
    }

    fn from_control(control: Control) -> (widget: Self) {
        UniBox { inner: control }
    }
}

impl UniBox {
    /// Wraps the native box at `ptr`, which this side is to destroy.
    pub fn new(ptr: usize) -> (widget: Self)
        requires
            ptr != 0,
        ensures
            widget.control().address() == ptr,
            !widget.control().child(),
            widget.is_fresh(),
    {
        Self::from_control(Control::new(ptr))
    }

    /// The address of the native box. It is not zero.
    pub fn as_ptr(&self) -> (ptr: usize)
        ensures
            ptr == self.control().address(),
            ptr != 0,
    {
        self.inner.as_ptr()
    }

    /// The control inside the box.
    pub fn as_control(&self) -> (control: &Control)
        ensures
            *control == self.control(),
    {
        &self.inner
    }

    /// Gives up the box for the control inside it.
    pub fn into_control(self) -> (control: Control)
        ensures
            control == self.control(),
    {
        self.inner
    }

    /// The control inside the box, to change it.
    pub fn as_control_mut(&mut self) -> (control: &mut Control)
        ensures
            *control == old(self).control(),
            final(self).control() == *final(control),
    {
        &mut self.inner
    }

    /// The call that asks whether this box is padded. The reply is a truth
    /// value in the toolkit's form.
    pub fn is_padded(&self) -> (call: Call)
        ensures
            call == (Call::GetInt { getter: Getter::BoxPadded, target: self.control().address() }),
    {
        Call::GetInt { getter: Getter::BoxPadded, target: self.inner.as_ptr() }
    }

    /// The call that sets whether this box is padded.
    pub fn set_padded(&self, value: bool) -> (call: Call)
        ensures
            call == (Call::SetInt {
                setter: Setter::BoxSetPadded,
                target: self.control().address(),
                value: int_of_bool(value),
            }),
    {
        set_bool_call(Setter::BoxSetPadded, self.inner.as_ptr(), value)
    }

    /// The call that asks for the number of child controls that this box
    /// contains. The reply is a count in the toolkit's form.
    pub fn child_count(&self) -> (call: Call)
        ensures
            call == (Call::GetInt {
                getter: Getter::BoxNumChildren,
                target: self.control().address(),
            }),
    {
        Call::GetInt { getter: Getter::BoxNumChildren, target: self.inner.as_ptr() }
    }

    /// The call that removes the child control at the given index. The child is
    /// not destroyed by it.
    pub fn delete_child(&self, index: u16) -> (call: Call)
        ensures
            call == (Call::SetInt {
                setter: Setter::BoxDelete,
                target: self.control().address(),
                value: index as i32,
            }),
    {
        Call::SetInt { setter: Setter::BoxDelete, target: self.inner.as_ptr(), value: index as i32 }
    }

    /// Makes `child` the last child of this box, which destroys it from now on,
    /// and gives the call that tells the toolkit. With `can_stretch` the child
    /// fills the room that the box has; without, it keeps its size.
    pub fn append_child(&self, child: &mut Control, can_stretch: bool) -> (call: Call)
        ensures
            *final(child) == old(child).after(Op::MakeChild),
            final(child).child(),
            final(child).address() == old(child).address(),
            call == (Call::BoxAppend {
                parent: self.control().address(),
                child: old(child).address(),
                stretchy: int_of_bool(can_stretch),
            }),
    {
        child.make_child();
        Call::BoxAppend {
            parent: self.inner.as_ptr(),
            child: child.as_ptr(),
            stretchy: bool_to_int(can_stretch),
        }
    }
}

} // verus!
