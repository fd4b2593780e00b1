//! A box that lays its children out along both axes: a vertical box inside a
//! horizontal one.

use vstd::prelude::*;

use crate::call::Call;
use crate::call::Getter;
use crate::call::Setter;
use crate::control::Control;
use crate::control::Op;
use crate::ffi::int_of_bool;
use crate::ui::FromControl;
use crate::ui::Ui;
use crate::unibox::UniBox;

verus! {

impl Ui {
    /// Puts the vertical box `inner` into the horizontal box `outer`, which
    /// destroys it from now on. The result is the box made of the two, and
    /// the call that tells the toolkit. With `can_stretch` the inner box, and
    /// every child that is appended later, fills the room that it is given.
    pub fn create_biaxial_box(&self, outer: UniBox, inner: UniBox, can_stretch: bool) -> (r: (
        BiBox,
        Call,
    ))
        ensures
            r.0.outer_box() == outer,
            r.0.inner_box().control() == inner.control().after(Op::MakeChild),
            r.0.inner_box().control().child(),
            r.0.inner_box().control().address() == inner.control().address(),
            r.0.stretches() == can_stretch,
            r.1 == (Call::BoxAppend {
                parent: outer.control().address(),
                child: inner.control().address(),
                stretchy: int_of_bool(can_stretch),
            }),
    {
        let mut inner = inner;
        let call = outer.append_child(inner.as_control_mut(), can_stretch);
        (BiBox { outer, inner, can_stretch }, call)
    }
}

/// A box that lays its children out along both axes.
///
/// To the outside it is the horizontal box; its children go into the vertical
/// box inside that.
#[derive(Debug, PartialEq, Eq)]
pub struct BiBox {
    outer: UniBox,
    inner: UniBox,
    can_stretch: bool,
}

impl BiBox {
    /// The horizontal box.
    pub closed spec fn outer_box(&self) -> UniBox {
        self.outer
    }

    /// The vertical box inside the horizontal one, which holds the children.
    pub closed spec fn inner_box(&self) -> UniBox {
        self.inner
    }

    /// The children fill the room that they are given.
    pub closed spec fn stretches(&self) -> bool {
        self.can_stretch
    }

    /// The control by which this box is put into a container: that of the
    /// horizontal box.
    pub fn as_control(&self) -> (control: &Control)
        ensures
            *control == self.outer_box().control(),
    {
        self.outer.as_control()
    }

    /// The control by which this box is put into a container, to change it.
    pub fn as_control_mut(&mut self) -> (control: &mut Control)
        ensures
            *control == old(self).outer_box().control(),
            final(self).outer_box().control() == *final(control),
            final(self).inner_box() == old(self).inner_box(),
            final(self).stretches() == old(self).stretches(),
    {
        self.outer.as_control_mut()
    }

    /// Makes `child` the last child of this box, which destroys it from now
    /// on, and gives the call that tells the toolkit.
    pub fn append_child(&mut self, child: &mut Control) -> (call: Call)
        ensures
            *final(self) == *old(self),
            *final(child) == old(child).after(Op::MakeChild),
            final(child).child(),
            final(child).address() == old(child).address(),
            call == (Call::BoxAppend {
                parent: old(self).inner_box().control().address(),
                child: old(child).address(),
                stretchy: int_of_bool(old(self).stretches()),
            }),
    {
        self.inner.append_child(child, self.can_stretch)
    }

    /// The call that asks for the number of child controls that this box
    /// contains. The reply is a count in the toolkit's form.
    pub fn child_count(&self) -> (call: Call)
        ensures
            call == (Call::GetInt {
                getter: Getter::BoxNumChildren,
                target: self.inner_box().control().address(),
            }),
    {
        self.inner.child_count()
    }

    /// The call that removes the child control at the given index. The child
    /// is not destroyed by it.
    pub fn delete_child(&mut self, index: u16) -> (call: Call)
        ensures
            *final(self) == *old(self),
            call == (Call::SetInt {
                setter: Setter::BoxDelete,
                target: old(self).inner_box().control().address(),
                value: index as i32,
            }),
    {
        self.inner.delete_child(index)
    }

    /// The calls that set whether this box is padded: first for the box
    /// inside, then for the one outside.
    pub fn set_padded(&mut self, value: bool) -> (calls: (Call, Call))
        ensures
            *final(self) == *old(self),
            calls.0 == (Call::SetInt {
                setter: Setter::BoxSetPadded,
                target: old(self).inner_box().control().address(),
                value: int_of_bool(value),
            }),
            calls.1 == (Call::SetInt {
                setter: Setter::BoxSetPadded,
                target: old(self).outer_box().control().address(),
                value: int_of_bool(value),
            }),
    {
        let inner = self.inner.set_padded(value);
        let outer = self.outer.set_padded(value);
        (inner, outer)
    }

    /// Ends the life of this box. The result is the call that destroys the
    /// horizontal box, and with it all that it contains, unless the box is the
    /// child of a container: then there is none. The box inside is never
    /// destroyed by itself.
    pub fn release(self) -> (call: Option<Call>)
        ensures
            call == self.outer_box().control().emits(Op::Release),
    {
        let BiBox { outer, inner: _, can_stretch: _ } = self;
        outer.into_control().release()
    }
}

} // verus!
