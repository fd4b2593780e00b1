//! A view of the rows and columns of a model.

use vstd::prelude::*;

use crate::call::Call;
use crate::call::Constructor;
use crate::call::Getter;
use crate::call::IndexedGetter;
use crate::call::PairSetter;
use crate::call::Setter;
use crate::call::set_bool_call;
use crate::control::Control;
use crate::ffi::int_of_bool;
use crate::ui::FromControl;
use crate::ui::Ui;

verus! {

impl Ui {
    /// The call that makes a table over the model at `model`, with its rows
    /// coloured as `row_bg` says. The model must outlive the table.
    pub fn create_table(&self, model: usize, row_bg: RowBackgroundColor) -> (call: Call)
        ensures
            call == Call::New(
                Constructor::Table { model, row_background: row_bg.param() },
            ),
    {
        Call::New(Constructor::Table { model, row_background: row_bg.into_param() })
    }
}

/// Where the rows of a table take their background colour from.
#[derive(Clone, Copy, Debug, PartialEq, Eq)]
pub enum RowBackgroundColor {
    /// The rows have the colour that the platform gives them.
    Default,
    /// The colour of each row is read from the column of the model with the
    /// given index.
    SameAsColumn { index: u16 },
}

impl RowBackgroundColor {
    /// The number that the toolkit takes for this choice.
    pub open spec fn param(self) -> i32 {
        match self {
            RowBackgroundColor::Default => -1i32,
            RowBackgroundColor::SameAsColumn { index } => index as i32,
        }
    }

    /// The number that the toolkit takes for this choice: the index of the
    /// column, or -1 for the platform's colour.
    pub fn into_param(self) -> (param: i32)
        ensures
            param == self.param(),
            param == -1 <==> self is Default,
    {
        match self {
            RowBackgroundColor::Default => -1,
            RowBackgroundColor::SameAsColumn { index } => index as i32,
        }
    }
}

/// A view of the rows and columns of a model.
#[derive(Debug, PartialEq, Eq)]
pub struct Table {
    inner: Control,
}

impl FromControl for Table {
    closed spec fn control(&self) -> Control {
        self.inner
    }

    open spec fn is_fresh(&self) -> bool {
        true
    }

    fn from_control(control: Control) -> (widget: Self) {
        Table { inner: control }
    }
}

impl Table {
    /// Wraps the native table at `ptr`, which this side is to destroy.
    pub fn new(ptr: usize) -> (widget: Self)
        requires
            ptr != 0,
        ensures
            widget.control().address() == ptr,
            !widget.control().child(),
            widget.is_fresh(),
    {
        Self::from_control(Control::new(ptr))
    }

    /// The address of the native table. It is not zero.
    pub fn as_ptr(&self) -> (ptr: usize)
        ensures
            ptr == self.control().address(),
            ptr != 0,
    {
        self.inner.as_ptr()
    }

    /// The control inside the table.
    pub fn as_control(&self) -> (control: &Control)
        ensures
            *control == self.control(),
    {
        &self.inner
    }

    /// Gives up the table for the control inside it.
    pub fn into_control(self) -> (control: Control)
        ensures
            control == self.control(),
    {
        self.inner
    }

    /// The control inside the table, to change it.
    pub fn as_control_mut(&mut self) -> (control: &mut Control)
        ensures
            *control == old(self).control(),
            final(self).control() == *final(control),
    {
        &mut self.inner
    }

    /// The call that asks whether the header of this table is visible. The
    /// reply is a truth value in the toolkit's form.
    pub fn is_header_visible(&self) -> (call: Call)
        ensures
            call == (Call::GetInt {
                getter: Getter::TableHeaderVisible,
                target: self.control().address(),
            }),
    {
        Call::GetInt { getter: Getter::TableHeaderVisible, target: self.inner.as_ptr() }
    }

    /// The call that sets whether the header of this table is visible.
    pub fn set_header_visible(&self, value: bool) -> (call: Call)
        ensures
            call == (Call::SetInt {
                setter: Setter::TableHeaderSetVisible,
                target: self.control().address(),
                value: int_of_bool(value),
            }),
    {
        set_bool_call(Setter::TableHeaderSetVisible, self.inner.as_ptr(), value)
    }

    /// The call that asks for the width of the column at the given index. The
    /// reply is an integer.
    pub fn column_width(&self, index: u16) -> (call: Call)
        ensures
            call == (Call::GetIntAt {
                indexed_getter: IndexedGetter::TableColumnWidth,
                target: self.control().address(),
                index: index as i32,
            }),
    {
        Call::GetIntAt {
            indexed_getter: IndexedGetter::TableColumnWidth,
            target: self.inner.as_ptr(),
            index: index as i32,
        }
    }

    /// The call that sets the width of the column at the given index.
    pub fn set_column_width(&self, index: u16, width: u16) -> (call: Call)
        ensures
            call == (Call::SetPair {
                pair_setter: PairSetter::TableColumnSetWidth,
                target: self.control().address(),
                first: index as i32,
                second: width as i32,
            }),
    {
        Call::SetPair {
            pair_setter: PairSetter::TableColumnSetWidth,
            target: self.inner.as_ptr(),
            first: index as i32,
            second: width as i32,
        }
    }
}

} // verus!
