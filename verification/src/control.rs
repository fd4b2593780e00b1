//! A type-erased control: the address of a native object, and whether this
//! side or a parent is the one to destroy it.

use vstd::prelude::*;

use crate::call::Action;
use crate::call::Call;
use crate::call::Getter;

verus! {

/// The signature that the toolkit writes into every area.
pub const AREA_SIGNATURE: u32 = 0x41726561;

/// The signature that the toolkit writes into every box.
pub const BOX_SIGNATURE: u32 = 0x426F784C;

/// The signature that the toolkit writes into every button.
pub const BUTTON_SIGNATURE: u32 = 0x42746F6E;

/// The signature that the toolkit writes into every checkbox.
pub const CHECKBOX_SIGNATURE: u32 = 0x43686B62;

/// The signature that the toolkit writes into every combobox.
pub const COMBOBOX_SIGNATURE: u32 = 0x436F6D62;

/// The signature that the toolkit writes into every form.
pub const FORM_SIGNATURE: u32 = 0x466F726D;

/// The signature that the toolkit writes into every grid.
pub const GRID_SIGNATURE: u32 = 0x47726964;

/// The signature that the toolkit writes into every group.
pub const GROUP_SIGNATURE: u32 = 0x47727062;

/// The signature that the toolkit writes into every label.
pub const LABEL_SIGNATURE: u32 = 0x4C61626C;

/// The signature that the toolkit writes into every progress bar.
pub const PROGRESS_BAR_SIGNATURE: u32 = 0x50426172;

/// The signature that the toolkit writes into every slider.
pub const SLIDER_SIGNATURE: u32 = 0x536C6964;

/// The signature that the toolkit writes into every spinbox.
pub const SPINBOX_SIGNATURE: u32 = 0x5370696E;

/// The signature that the toolkit writes into every tab.
pub const TAB_SIGNATURE: u32 = 0x54616273;

/// The signature that the toolkit writes into every table.
pub const TABLE_SIGNATURE: u32 = 0x5461626C;

/// The signature that the toolkit writes into every window.
pub const WINDOW_SIGNATURE: u32 = 0x57696E64;

/// The kind of a control, as its type signature tells it.
#[derive(Clone, Copy, Debug, PartialEq, Eq)]
pub enum TypeId {
    Area,
    UniBox,
    Button,
    Checkbox,
    Combobox,
    Form,
    Grid,
    Group,
    Label,
    ProgressBar,
    Slider,
    Spinbox,
    Tab,
    Table,
    Window,
    /// A kind that this crate does not tell apart, with its signature.
    Unknown(u32),
}

impl TypeId {
    /// The signature that stands in the controls of this kind.
    pub open spec fn signature_spec(self) -> u32 {
        match self {
            TypeId::Area => AREA_SIGNATURE,
            TypeId::UniBox => BOX_SIGNATURE,
            TypeId::Button => BUTTON_SIGNATURE,
            TypeId::Checkbox => CHECKBOX_SIGNATURE,
            TypeId::Combobox => COMBOBOX_SIGNATURE,
            TypeId::Form => FORM_SIGNATURE,
            TypeId::Grid => GRID_SIGNATURE,
            TypeId::Group => GROUP_SIGNATURE,
            TypeId::Label => LABEL_SIGNATURE,
            TypeId::ProgressBar => PROGRESS_BAR_SIGNATURE,
            TypeId::Slider => SLIDER_SIGNATURE,
            TypeId::Spinbox => SPINBOX_SIGNATURE,
            TypeId::Tab => TAB_SIGNATURE,
            TypeId::Table => TABLE_SIGNATURE,
            TypeId::Window => WINDOW_SIGNATURE,
            TypeId::Unknown(signature) => signature,
        }
    }

    /// `signature` is that of a kind which this crate tells apart.
    pub open spec fn is_known_signature(signature: u32) -> bool {
        exists|kind: TypeId| !(kind is Unknown) && #[trigger] kind.signature_spec() == signature
    }

    /// The kind of the controls that hold `sig`.
    ///
    /// The kinds' signatures differ from one another, so the two clauses leave
    /// one result.
    pub fn new(sig: u32) -> (kind: TypeId)
        ensures
            kind.signature_spec() == sig,
            kind is Unknown <==> !Self::is_known_signature(sig),
    {
        let kind = if sig == AREA_SIGNATURE {
            TypeId::Area
        } else if sig == BOX_SIGNATURE {
            TypeId::UniBox
        } else if sig == BUTTON_SIGNATURE {
            TypeId::Button
        } else if sig == CHECKBOX_SIGNATURE {
            TypeId::Checkbox
        } else if sig == COMBOBOX_SIGNATURE {
            TypeId::Combobox
        } else if sig == FORM_SIGNATURE {
            TypeId::Form
        } else if sig == GRID_SIGNATURE {
            TypeId::Grid
        } else if sig == GROUP_SIGNATURE {
            TypeId::Group
        } else if sig == LABEL_SIGNATURE {
            TypeId::Label
        } else if sig == PROGRESS_BAR_SIGNATURE {
            TypeId::ProgressBar
        } else if sig == SLIDER_SIGNATURE {
            TypeId::Slider
        } else if sig == SPINBOX_SIGNATURE {
            TypeId::Spinbox
        } else if sig == TAB_SIGNATURE {
            TypeId::Tab
        } else if sig == TABLE_SIGNATURE {
            TypeId::Table
        } else if sig == WINDOW_SIGNATURE {
            TypeId::Window
        } else {
            TypeId::Unknown(sig)
        };
        proof {
            if !(kind is Unknown) {
                assert(!(kind is Unknown) && kind.signature_spec() == sig);
            }
        }
        kind
    }

    /// The signature that stands in the controls of this kind.
    pub fn signature(&self) -> (sig: u32)
        ensures
            sig == self.signature_spec(),
    {
        match self {
            TypeId::Area => AREA_SIGNATURE,
            TypeId::UniBox => BOX_SIGNATURE,
            TypeId::Button => BUTTON_SIGNATURE,
            TypeId::Checkbox => CHECKBOX_SIGNATURE,
            TypeId::Combobox => COMBOBOX_SIGNATURE,
            TypeId::Form => FORM_SIGNATURE,
            TypeId::Grid => GRID_SIGNATURE,
            TypeId::Group => GROUP_SIGNATURE,
            TypeId::Label => LABEL_SIGNATURE,
            TypeId::ProgressBar => PROGRESS_BAR_SIGNATURE,
            TypeId::Slider => SLIDER_SIGNATURE,
            TypeId::Spinbox => SPINBOX_SIGNATURE,
            TypeId::Tab => TAB_SIGNATURE,
            TypeId::Table => TABLE_SIGNATURE,
            TypeId::Window => WINDOW_SIGNATURE,
            TypeId::Unknown(signature) => *signature,
        }
    }

    /// Controls of this kind may hold children, which they destroy with
    /// themselves.
    pub open spec fn can_contain_spec(self) -> bool {
        self is Window || self is UniBox || self is Group || self is Tab || self is Table
            || self is Form || self is Grid
    }

    /// Tells whether controls of this kind may hold children.
    pub fn can_contain(&self) -> (r: bool)
        ensures
            r == self.can_contain_spec(),
    {
        match self {
            TypeId::Window
            | TypeId::UniBox
            | TypeId::Group
            | TypeId::Tab
            | TypeId::Table
            | TypeId::Form
            | TypeId::Grid => true,
            _ => false,
        }
    }
}

/// What can be done with a control, as far as it bears on who destroys it.
pub enum Op {
    /// The control becomes the child of a container.
    MakeChild,
    /// The control is shown.
    Show,
    /// The control is hidden.
    Hide,
    /// The control is enabled.
    Enable,
    /// The control is disabled.
    Disable,
    /// The scope that holds the control ends.
    Release,
}

/// A type-erased control.
///
/// It holds the address of a native control, which is never zero, and a flag
/// that says whether the control is the child of a container. A control that
/// is no child is destroyed by this side, when the scope that holds it ends. A
/// child is destroyed by its parent, and never by this side: that would free
/// it twice. Once set, the flag stays set.
///
/// The toolkit works on one thread, so a control cannot be sent to another
/// thread, nor shared with one.
#[derive(Debug, PartialEq, Eq)]
pub struct Control {
    ptr: usize,
    is_child: bool,
    thread: core::marker::PhantomData<std::rc::Rc<()>>,
}

impl Control {
    #[verifier::type_invariant]
    spec fn well_formed(self) -> bool {
        self.ptr != 0
    }

    /// The address of the native control.
    pub closed spec fn address(self) -> usize {
        self.ptr
    }

    /// The control is the child of a container.
    pub closed spec fn child(self) -> bool {
        self.is_child
    }

    /// The control after `op`.
    pub closed spec fn after(self, op: Op) -> Control {
        match op {
            Op::MakeChild => Control { ptr: self.ptr, is_child: true, thread: self.thread },
            _ => self,
        }
    }

    /// The call, if any, that `op` asks for.
    pub open spec fn emits(self, op: Op) -> Option<Call> {
        match op {
            Op::MakeChild => None,
            Op::Show => Some(Call::Do { action: Action::ControlShow, target: self.address() }),
            Op::Hide => Some(Call::Do { action: Action::ControlHide, target: self.address() }),
            Op::Enable => Some(Call::Do { action: Action::ControlEnable, target: self.address() }),
            Op::Disable => Some(
                Call::Do { action: Action::ControlDisable, target: self.address() },
            ),
            Op::Release => if self.child() {
                None
            } else {
                Some(Call::Do { action: Action::ControlDestroy, target: self.address() })
            },
        }
    }

    /// The calls that `ops` ask for, one after the other.
    pub open spec fn trace(self, ops: Seq<Op>) -> Seq<Call>
        decreases ops.len(),
    {
        if ops.len() == 0 {
            Seq::empty()
        } else {
            let rest = self.after(ops[0]).trace(ops.drop_first());
            match self.emits(ops[0]) {
                Some(call) => seq![call] + rest,
                None => rest,
            }
        }
    }

    /// Wraps the native control at `ptr`, which this side is to destroy.
    pub fn new(ptr: usize) -> (control: Control)
        requires
            ptr != 0,
        ensures
            control.address() == ptr,
            !control.child(),
    {
        Control { ptr, is_child: false, thread: core::marker::PhantomData }
    }

    /// Wraps the native control at `ptr` for the time of a callback. The
    /// control stays with whoever owns it: the end of this wrapper's scope
    /// destroys nothing.
    pub fn transient(ptr: usize) -> (control: Control)
        requires
            ptr != 0,
        ensures
            control.address() == ptr,
            control.child(),
    {
        Control { ptr, is_child: true, thread: core::marker::PhantomData }
    }

    /// The address of the native control. It is not zero.
    pub fn as_ptr(&self) -> (ptr: usize)
        ensures
            ptr == self.address(),
            ptr != 0,
    {
        proof {
            use_type_invariant(self);
        }
        self.ptr
    }

    /// Tells whether the control is the child of a container.
    pub fn is_child(&self) -> (r: bool)
        ensures
            r == self.child(),
    {
        self.is_child
    }

    /// Records that the control is now the child of a container, which will
    /// destroy it.
    pub fn make_child(&mut self)
        ensures
            *final(self) == old(self).after(Op::MakeChild),
            final(self).child(),
            final(self).address() == old(self).address(),
    {
        proof {
            use_type_invariant(&*self);
        }
        self.is_child = true;
    }

    /// Hands the control over to another holder. The result owns what this
    /// wrapper owned, or is a child as this one was; this wrapper is left as
    /// one that destroys nothing. So a widget that cannot be moved out of its
    /// place, as one in the arena of the session, can still give up its control
    /// without the control having two owners.
    pub fn hand_over(&mut self) -> (handed: Control)
        ensures
            handed == *old(self),
            *final(self) == old(self).after(Op::MakeChild),
            final(self).child(),
            final(self).address() == old(self).address(),
    {
        proof {
            use_type_invariant(&*self);
        }
        let handed = Control { ptr: self.ptr, is_child: self.is_child, thread: self.thread };
        self.is_child = true;
        handed
    }

    /// Ends the life of this wrapper. Where this side owns the control, the
    /// result is the call that destroys it; for a child there is none.
    pub fn release(self) -> (call: Option<Call>)
        ensures
            call == self.emits(Op::Release),
            call is None <==> self.child(),
            call matches Some(c) ==> c.is_destroy_of(self.address()),
    {
        if self.is_child {
            None
        } else {
            Some(Call::Do { action: Action::ControlDestroy, target: self.ptr })
        }
    }

    /// The call that makes the control visible.
    pub fn show(&self) -> (call: Call)
        ensures
            Some(call) == self.emits(Op::Show),
    {
        Call::Do { action: Action::ControlShow, target: self.ptr }
    }

    /// The call that makes the control invisible.
    pub fn conceal(&self) -> (call: Call)
        ensures
            Some(call) == self.emits(Op::Hide),
    {
        Call::Do { action: Action::ControlHide, target: self.ptr }
    }

    /// The call that makes the control interactable.
    pub fn enable(&self) -> (call: Call)
        ensures
            Some(call) == self.emits(Op::Enable),
    {
        Call::Do { action: Action::ControlEnable, target: self.ptr }
    }

    /// The call that makes the control uninteractable.
    pub fn disable(&self) -> (call: Call)
        ensures
            Some(call) == self.emits(Op::Disable),
    {
        Call::Do { action: Action::ControlDisable, target: self.ptr }
    }

    /// The call that asks whether the control is visible. The reply is a truth
    /// value in the toolkit's form.
    pub fn is_visible(&self) -> (call: Call)
        ensures
            call == (Call::GetInt { getter: Getter::ControlVisible, target: self.address() }),
    {
        Call::GetInt { getter: Getter::ControlVisible, target: self.ptr }
    }

    /// The call that asks whether the control is interactable. The reply is a
    /// truth value in the toolkit's form.
    pub fn is_enabled(&self) -> (call: Call)
        ensures
            call == (Call::GetInt { getter: Getter::ControlEnabled, target: self.address() }),
    {
        Call::GetInt { getter: Getter::ControlEnabled, target: self.ptr }
    }

    /// The call that asks whether the control and all that contain it are
    /// interactable. The reply is a truth value in the toolkit's form.
    pub fn is_enabled_to_user(&self) -> (call: Call)
        ensures
            call == (Call::GetInt { getter: Getter::ControlEnabledToUser, target: self.address() }),
    {
        Call::GetInt { getter: Getter::ControlEnabledToUser, target: self.ptr }
    }

    /// The call that asks for the handle of the object of the operating system
    /// behind the control. The reply is an address.
    pub fn native_handle(&self) -> (call: Call)
        ensures
            call == (Call::ControlHandle { target: self.address() }),
    {
        Call::ControlHandle { target: self.ptr }
    }

    /// The call that reads the control's type signature. `TypeId::new` reads
    /// the reply.
    pub fn type_id(&self) -> (call: Call)
        ensures
            call == (Call::ControlTypeSignature { target: self.address() }),
    {
        Call::ControlTypeSignature { target: self.ptr }
    }
}

/// No operation moves a control: its address stays what it was.
pub proof fn lemma_after_keeps_address(control: Control, op: Op)
    ensures
        control.after(op).address() == control.address(),
        control.after(Op::MakeChild).child(),
        !(op is MakeChild) ==> control.after(op) == control,
{
}

/// No operation gives a child back to this side.
pub proof fn lemma_child_stays_child(control: Control, op: Op)
    requires
        control.child(),
    ensures
        control.after(op).child(),
        control.after(op).address() == control.address(),
{
}

/// Making a child of a control a second time changes nothing.
pub proof fn lemma_make_child_idempotent(control: Control)
    ensures
        control.after(Op::MakeChild).after(Op::MakeChild) == control.after(Op::MakeChild),
        control.after(Op::MakeChild).child(),
{
}

/// Whatever is done with a child, in whatever order, none of the calls that
/// it asks for destroys the child.
pub proof fn lemma_child_is_never_destroyed(control: Control, ops: Seq<Op>)
    requires
        control.child(),
    ensures
        forall|i: int|
            0 <= i < control.trace(ops).len() ==> !(#[trigger] control.trace(ops)[i]).is_destroy_of(
                control.address(),
            ),
    decreases ops.len(),
{
    if ops.len() > 0 {
        let next = control.after(ops[0]);
        lemma_child_stays_child(control, ops[0]);
        lemma_child_is_never_destroyed(next, ops.drop_first());
        let rest = next.trace(ops.drop_first());
        assert forall|i: int| 0 <= i < control.trace(ops).len() implies !(
        #[trigger] control.trace(ops)[i]).is_destroy_of(control.address()) by {
            match control.emits(ops[0]) {
                Some(call) => {
                    if i > 0 {
                        assert(control.trace(ops)[i] == rest[i - 1]);
                    }
                },
                None => {
                    assert(control.trace(ops)[i] == rest[i]);
                },
            }
        }
    }
}

/// Once a control has been made a child, nothing that is done with it later
/// asks for its destruction.
pub proof fn lemma_no_destroy_after_make_child(control: Control, ops: Seq<Op>)
    ensures
        forall|i: int|
            0 <= i < control.after(Op::MakeChild).trace(ops).len() ==> !(
            #[trigger] control.after(Op::MakeChild).trace(ops)[i]).is_destroy_of(control.address()),
{
    lemma_child_is_never_destroyed(control.after(Op::MakeChild), ops);
}

} // verus!
