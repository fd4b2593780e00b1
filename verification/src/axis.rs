//! A series of controls aligned to a common line.

use vstd::prelude::*;

use crate::call::Call;
use crate::call::Constructor;
use crate::call::Getter;
use crate::call::Setter;
use crate::call::set_bool_call;
use crate::control::Control;
use crate::control::Op;
use crate::ffi::bool_to_int;
use crate::ffi::int_of_bool;
use crate::ffi::to_u16;
use crate::ui::FromControl;
use crate::ui::Ui;

verus! {

impl Ui {
    /// The call that makes a horizontal axis.
    pub fn create_horizontal_axis(&self) -> (call: Call)
        ensures
            call == Call::New(Constructor::HorizontalBox),
    {
        Call::New(Constructor::HorizontalBox)
    }

    /// The call that makes a vertical axis.
    pub fn create_vertical_axis(&self) -> (call: Call)
        ensures
            call == Call::New(Constructor::VerticalBox),
    {
        Call::New(Constructor::VerticalBox)
    }
}

/// A series of controls aligned to a common line.
#[derive(Debug, PartialEq, Eq)]
pub struct Axis {
    inner: Control,
}

impl FromControl for Axis {
    closed spec fn control(&self) -> Control {
        self.inner
    }

    open spec fn is_fresh(&self) -> bool {
        true
    }

    fn from_control(control: Control) -> (widget: Self) {
        Axis { inner: control }
    }
}

impl Axis {
    /// Wraps the native axis at `ptr`, which this side is to destroy.
    pub fn new(ptr: usize) -> (widget: Self)
        requires
            ptr != 0,
        ensures
            widget.control().address() == ptr,
            !widget.control().child(),
            widget.is_fresh(),
    {
        Self::from_control(Control::new(ptr))
    }

    /// The address of the native axis. It is not zero.
    pub fn as_ptr(&self) -> (ptr: usize)
        ensures
            ptr == self.control().address(),
            ptr != 0,
    {
        self.inner.as_ptr()
    }

    /// The control inside the axis.
    pub fn as_control(&self) -> (control: &Control)
        ensures
            *control == self.control(),
    {
        &self.inner
    }

    /// Gives up the axis for the control inside it.
    pub fn into_control(self) -> (control: Control)
        ensures
            control == self.control(),
    {
        self.inner
    }

    /// The control inside the axis, to change it.
    pub fn as_control_mut(&mut self) -> (control: &mut Control)
        ensures
            *control == old(self).control(),
            final(self).control() == *final(control),
    {
        &mut self.inner
    }

    /// The call that asks whether this axis is padded. The reply is a truth
    /// value in the toolkit's form.
    pub fn is_padded(&self) -> (call: Call)
        ensures
            call == (Call::GetInt { getter: Getter::BoxPadded, target: self.control().address() }),
    {
        Call::GetInt { getter: Getter::BoxPadded, target: self.inner.as_ptr() }
    }

    /// The call that sets whether this axis is padded.
    pub fn set_padded(&self, value: bool) -> (call: Call)
        ensures
            call == (Call::SetInt {
                setter: Setter::BoxSetPadded,
                target: self.control().address(),
                value: int_of_bool(value),
            }),
    {
        set_bool_call(Setter::BoxSetPadded, self.inner.as_ptr(), value)
    }

    /// The call that asks for the number of child controls that this axis
    /// contains. The reply is a count in the toolkit's form.
    pub fn child_count(&self) -> (call: Call)
        ensures
            call == (Call::GetInt {
                getter: Getter::BoxNumChildren,
                target: self.control().address(),
            }),
    {
        Call::GetInt { getter: Getter::BoxNumChildren, target: self.inner.as_ptr() }
    }

    /// The call that removes the child control at the given index. The indices
    /// of the children behind it change by that.
    pub fn remove_child(&self, index: u16) -> (call: Call)
        ensures
            call == (Call::SetInt {
                setter: Setter::BoxDelete,
                target: self.control().address(),
                value: index as i32,
            }),
    {
        Call::SetInt { setter: Setter::BoxDelete, target: self.inner.as_ptr(), value: index as i32 }
    }

    /// Makes `child` the last child of this axis, which destroys it from now on.
    /// The result is the index of the new child and the call that tells the
    /// toolkit. `child_count` is the reply to `child_count`, made just before.
    ///
    /// With `can_stretch` the child fills the room that the axis has; without,
    /// it keeps its size. A later removal may make the index out of date.
    pub fn push_new_child(&self, child: &mut Control, can_stretch: bool, child_count: i32) -> (r: (
        u16,
        Call,
    ))
        requires
            0 <= child_count <= u16::MAX,
        ensures
            *final(child) == old(child).after(Op::MakeChild),
            final(child).child(),
            final(child).address() == old(child).address(),
            r.0 == child_count,
            r.1 == (Call::BoxAppend {
                parent: self.control().address(),
                child: old(child).address(),
                stretchy: int_of_bool(can_stretch),
            }),
    {
        let index = to_u16(child_count);
        child.make_child();
        let call = Call::BoxAppend {
            parent: self.inner.as_ptr(),
            child: child.as_ptr(),
            stretchy: bool_to_int(can_stretch),
        };
        (index, call)
    }
}

} // verus!
