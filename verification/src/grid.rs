//! A container that lays its children out in rows and columns.

use vstd::prelude::*;

use crate::call::Call;
use crate::call::Constructor;
use crate::call::Getter;
use crate::call::Setter;
use crate::call::set_bool_call;
use crate::control::Control;
use crate::ffi::int_of_bool;
use crate::ui::FromControl;
use crate::ui::Ui;

verus! {

impl Ui {
    /// The call that makes a grid.
    pub fn create_grid(&self) -> (call: Call)
        ensures
            call == Call::New(Constructor::Grid),
    {
        Call::New(Constructor::Grid)
    }
}

/// A container that lays its children out in rows and columns.
#[derive(Debug, PartialEq, Eq)]
pub struct Grid {
    inner: Control,
}

impl FromControl for Grid {
    closed spec fn control(&self) -> Control {
        self.inner
    }

    open spec fn is_fresh(&self) -> bool {
        true
    }

    fn from_control(control: Control) -> (widget: Self) {
        Grid { inner: control }
    }
}

impl Grid {
    /// Wraps the native grid at `ptr`, which this side is to destroy.
    pub fn new(ptr: usize) -> (widget: Self)
        requires
            ptr != 0,
        ensures
            widget.control().address() == ptr,
            !widget.control().child(),
            widget.is_fresh(),
    {
        Self::from_control(Control::new(ptr))
    }

    /// The address of the native grid. It is not zero.
    pub fn as_ptr(&self) -> (ptr: usize)
        ensures
            ptr == self.control().address(),
            ptr != 0,
    {
        self.inner.as_ptr()
    }

    /// The control inside the grid.
    pub fn as_control(&self) -> (control: &Control)
        ensures
            *control == self.control(),
    {
        &self.inner
    }

    /// Gives up the grid for the control inside it.
    pub fn into_control(self) -> (control: Control)
        ensures
            control == self.control(),
    {
        self.inner
    }

    /// The control inside the grid, to change it.
    pub fn as_control_mut(&mut self) -> (control: &mut Control)
        ensures
            *control == old(self).control(),
            final(self).control() == *final(control),
    {
        &mut self.inner
    }

    /// The call that asks whether this grid is padded. The reply is a truth
    /// value in the toolkit's form. Grids are unpadded by default.
    pub fn is_padded(&self) -> (call: Call)
        ensures
            call == (Call::GetInt { getter: Getter::GridPadded, target: self.control().address() }),
    {
        Call::GetInt { getter: Getter::GridPadded, target: self.inner.as_ptr() }
    }

    /// The call that sets whether this grid is padded.
    pub fn set_padded(&self, value: bool) -> (call: Call)
        ensures
            call == (Call::SetInt {
                setter: Setter::GridSetPadded,
                target: self.control().address(),
                value: int_of_bool(value),
            }),
    {
        set_bool_call(Setter::GridSetPadded, self.inner.as_ptr(), value)
    }
}

} // verus!
