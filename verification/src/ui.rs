//! The session with the toolkit: made once, run, and torn down.

use vstd::prelude::*;
use vstd::string::*;
use vstd::utf8::*;

use crate::call::Action;
use crate::call::Call;
use crate::call::Constructor;
use crate::control::Control;
use crate::control::TypeId;
use crate::error::Error;
use crate::ffi::is_prefix;
use crate::ffi::is_text_of;
use crate::ffi::lossy_utf8;
use crate::ffi::result_from_obj;
use crate::ffi::starts_with;

verus! {

#[verifier::external_type_specification]
#[verifier::external_body]
pub struct ExBump<const MIN_ALIGN: usize>(bumpalo::Bump<MIN_ALIGN>);

/// Calls `bumpalo::Bump::new`. Nothing is claimed of the arena that it makes.
#[verifier::external_body]
fn arena_new() -> (arena: bumpalo::Bump) {
    bumpalo::Bump::new()
}

/// Calls `bumpalo::Bump::alloc`.
///
/// The arena moves `value` into storage of its own and gives an exclusive
/// reference to it there, which holds for as long as the arena is borrowed. It
/// stops the program where the machine has no memory left.
#[verifier::external_body]
fn arena_alloc<'a, T>(arena: &'a bumpalo::Bump, value: T) -> (slot: &'a mut T)
    ensures
        *slot == value,
{
    arena.alloc(value)
}

/// How the toolkit's message begins when, on one platform, it reports a
/// failure to initialize though nothing has failed. Under a message that
/// begins so the toolkit is taken as initialized.
pub const BENIGN_INIT_MESSAGE: &'static str =
    "error initializing libui: initializing Common Controls; code 0";

/// The name under which a failure to initialize is reported.
pub const INIT_FUNCTION: &'static str = "uiInit";

/// The guard that lets the toolkit be initialized once.
///
/// A process keeps one guard for all its life. The first claim on it is
/// granted, every later one refused, whether or not the toolkit then
/// initialized well.
#[derive(Debug)]
pub struct InitGuard {
    claimed: bool,
}

/// The leave to initialize the toolkit, which only a granted claim gives.
#[derive(Debug)]
pub struct Permit {
    _granted: (),
}

impl InitGuard {
    /// The guard has been claimed.
    pub closed spec fn claimed(self) -> bool {
        self.claimed
    }

    /// The guard after a claim on it.
    pub closed spec fn after_claim(self) -> InitGuard {
        InitGuard { claimed: true }
    }

    /// A claim on the guard is granted.
    pub open spec fn grants(self) -> bool {
        !self.claimed()
    }

    /// A guard that nobody has claimed yet.
    pub fn new() -> (guard: InitGuard)
        ensures
            !guard.claimed(),
    {
        InitGuard { claimed: false }
    }

    /// Claims the guard. The first claim gives the leave to initialize the
    /// toolkit; later ones give the error, and ask for no call.
    pub fn claim(&mut self) -> (r: Result<Permit, Error>)
        ensures
            *final(self) == old(self).after_claim(),
            final(self).claimed(),
            r is Ok <==> old(self).grants(),
            r matches Err(e) ==> e == Error::AlreadyInitedLibui,
    {
        if self.claimed {
            Err(Error::AlreadyInitedLibui)
        } else {
            self.claimed = true;
            Ok(Permit { _granted: () })
        }
    }
}

impl Permit {
    /// The call that initializes the toolkit.
    pub fn call(&self) -> (call: Call)
        ensures
            call == Call::Init,
    {
        Call::Init
    }
}

/// After one claim, no claim is granted: a second session is never made, and
/// the toolkit is not initialized again.
pub proof fn lemma_second_claim_is_refused(guard: InitGuard)
    ensures
        guard.after_claim().claimed(),
        !guard.after_claim().grants(),
        guard.after_claim().after_claim() == guard.after_claim(),
{
}

/// A widget that is made from a control.
pub trait FromControl: Sized {
    /// The control inside the widget.
    spec fn control(&self) -> Control;

    /// The widget holds no callback.
    spec fn is_fresh(&self) -> bool;

    /// The widget for `control`, with no callback set.
    fn from_control(control: Control) -> (widget: Self)
        ensures
            widget.control() == control,
            widget.is_fresh(),
    ;
}

/// A control that is still held when the session is torn down, with its
/// kind.
///
/// A control that is held by value goes in as it is. The control of a widget
/// in the arena, which cannot be moved out of its place, is given by
/// `Control::hand_over`.
#[derive(Debug)]
pub struct Root {
    pub kind: TypeId,
    pub control: Control,
}

/// The call that destroys the control at `target`.
pub open spec fn destroy(target: usize) -> Call {
    Call::Do { action: Action::ControlDestroy, target }
}

/// The teardown destroys `root`, and in the pass for containers or in the one
/// for the rest, as `containers` says.
pub open spec fn destroyed_in_pass(root: Root, containers: bool) -> bool {
    !root.control.child() && root.kind.can_contain_spec() == containers
}

/// The calls of one pass of the teardown over `roots`.
pub open spec fn teardown_pass(roots: Seq<Root>, containers: bool) -> Seq<Call>
    decreases roots.len(),
{
    if roots.len() == 0 {
        Seq::empty()
    } else {
        let before = teardown_pass(roots.drop_last(), containers);
        if destroyed_in_pass(roots.last(), containers) {
            before.push(destroy(roots.last().control.address()))
        } else {
            before
        }
    }
}

/// The calls of the teardown: the containers that are this side's to destroy,
/// then the other controls that are.
pub open spec fn teardown_calls(roots: Seq<Root>) -> Seq<Call> {
    teardown_pass(roots, true) + teardown_pass(roots, false)
}

/// The session with the toolkit.
///
/// It owns the arena in which widgets are kept, so that they stay in place,
/// and with them the slots of their callbacks, for as long as the session
/// lasts. Nothing is taken out of the arena again.
///
/// The toolkit works on one thread, so the session cannot be sent to another
/// thread, nor shared with one.
pub struct Ui {
    arena: bumpalo::Bump,
    thread: core::marker::PhantomData<std::rc::Rc<()>>,
}

/// `r` is what an initialization comes to under the message `text`: success
/// where the message begins as `BENIGN_INIT_MESSAGE` does, and elsewhere the
/// failure of `uiInit` with the message as its cause.
pub open spec fn reports_init<T>(r: Result<T, Error>, text: Seq<char>) -> bool {
    if is_prefix(BENIGN_INIT_MESSAGE@, text) {
        r is Ok
    } else {
        r matches Err(e) && e.is_failure_because(INIT_FUNCTION@, text)
    }
}

impl Ui {
    /// Reads the toolkit's reply to its initialization. No message is success,
    /// and so is a message that begins as `BENIGN_INIT_MESSAGE` does. Any other
    /// message is the cause of a failure of `uiInit`.
    pub fn init_result(result: Result<(), String>) -> (r: Result<(), Error>)
        ensures
            match result {
                Ok(()) => r is Ok,
                Err(cause) => reports_init(r, cause@) && (r is Err ==> r == Err::<(), Error>(
                    Error::LibuiFn { name: INIT_FUNCTION, cause: Some(cause) },
                )),
            },
    {
        match result {
            Ok(()) => Ok(()),
            Err(cause) => {
                if starts_with(cause.as_str(), BENIGN_INIT_MESSAGE) {
                    Ok(())
                } else {
                    Err(Error::LibuiFn { name: INIT_FUNCTION, cause: Some(cause) })
                }
            },
        }
    }

    /// Reads the toolkit's report on a step that may fail: no message means
    /// that the step succeeded, a message is the reason why it did not.
    pub fn result_from_err_msg(err_msg: Option<&[u8]>) -> (r: Result<(), String>)
        ensures
            err_msg is None <==> r is Ok,
            match (err_msg, r) {
                (Some(bytes), Err(cause)) => is_text_of(cause@, bytes@),
                _ => true,
            },
    {
        crate::ffi::result_from_err_msg(err_msg)
    }

    /// Reads the toolkit's reply to `uiInit`: `err_msg` is its message, or
    /// `None` where it gave none. The message is read as text, with whatever
    /// is not UTF-8 replaced, and judged as `init_result` says.
    pub fn init_unchecked(err_msg: Option<&[u8]>) -> (r: Result<(), Error>)
        ensures
            match err_msg {
                None => r is Ok,
                Some(bytes) => reports_init(r, lossy_utf8(bytes@)) && (valid_utf8(bytes@)
                    ==> reports_init(r, decode_utf8(bytes@))),
            },
    {
        Self::init_result(Self::result_from_err_msg(err_msg))
    }

    /// Makes the session, once the toolkit has replied to the call that
    /// `permit` gave leave for.
    pub fn new(permit: Permit, err_msg: Option<&[u8]>) -> (r: Result<Ui, Error>)
        ensures
            match err_msg {
                None => r is Ok,
                Some(bytes) => reports_init(r, lossy_utf8(bytes@)) && (valid_utf8(bytes@)
                    ==> reports_init(r, decode_utf8(bytes@))),
            },
    {
        let Permit { _granted: () } = permit;
        match Self::init_unchecked(err_msg) {
            Ok(()) => Ok(Ui { arena: arena_new(), thread: core::marker::PhantomData }),
            Err(e) => Err(e),
        }
    }

    /// The call that runs the toolkit's event loop. It returns once the loop
    /// has been told to stop, and may be made again after that.
    pub fn run(&self) -> (call: Call)
        ensures
            call == Call::Main,
    {
        Call::Main
    }

    /// Moves `value` into the arena, where it stays for as long as the session
    /// lasts.
    pub(crate) fn alloc_object<T>(&self, value: T) -> (slot: &mut T)
        ensures
            *slot == value,
    {
        arena_alloc(&self.arena, value)
    }

    /// Reads the reply to `constructor`: the address of the new object, or the
    /// failure of the constructor where the toolkit made none.
    pub fn object_from_reply(constructor: &Constructor, obj: usize) -> (r: Result<usize, Error>)
        ensures
            obj == 0 <==> r is Err,
            r matches Ok(ptr) ==> ptr == obj,
            r matches Err(e) ==> e.is_failure_of(constructor.name_spec()),
    {
        match result_from_obj(obj) {
            Ok(ptr) => Ok(ptr),
            Err(()) => Err(Error::LibuiFn { name: constructor.name(), cause: None }),
        }
    }

    /// Reads the reply to the function `name` of the toolkit, which makes a
    /// control. Where it made one, the control is wrapped in a widget and the
    /// widget kept in the arena; the control is then this side's to destroy,
    /// until it is made a child. Where it made none, nothing is wrapped.
    pub fn adopt_as<W: FromControl>(&self, name: &'static str, obj: usize) -> (r: Result<
        &mut W,
        Error,
    >)
        ensures
            obj == 0 <==> r is Err,
            r matches Ok(widget) ==> widget.control().address() == obj && !widget.control().child()
                && widget.is_fresh(),
            r matches Err(e) ==> e.is_failure_of(name@),
    {
        match result_from_obj(obj) {
            Ok(ptr) => Ok(self.alloc_object(W::from_control(Control::new(ptr)))),
            Err(()) => Err(Error::LibuiFn { name, cause: None }),
        }
    }

    /// Reads the reply to `constructor` and, where the toolkit made a control,
    /// wraps it in a widget and keeps the widget in the arena. The control is
    /// then this side's to destroy, until it is made a child. Where the toolkit
    /// made none, nothing is wrapped.
    pub fn adopt<W: FromControl>(&self, constructor: &Constructor, obj: usize) -> (r: Result<
        &mut W,
        Error,
    >)
        ensures
            obj == 0 <==> r is Err,
            r matches Ok(widget) ==> widget.control().address() == obj && !widget.control().child()
                && widget.is_fresh(),
            r matches Err(e) ==> e.is_failure_of(constructor.name_spec()),
    {
        self.adopt_as(constructor.name(), obj)
    }

    /// Tears down what is left of the session's controls. The result is the
    /// calls to make, in their order: first those that destroy the containers
    /// among `roots`, then those that destroy the other controls. Children are
    /// left to their parents.
    ///
    /// The session is only borrowed: the arena, and with it the slots of the
    /// callbacks, stands while these calls are made. `end` ends the session
    /// after them.
    pub fn teardown(&self, roots: Vec<Root>) -> (calls: Vec<Call>)
        ensures
            calls@ == teardown_calls(roots@),
    {
        let mut calls: Vec<Call> = Vec::new();
        let mut i: usize = 0;
        while i < roots.len()
            invariant
                i <= roots.len(),
                calls@ == teardown_pass(roots@.subrange(0, i as int), true),
            decreases roots.len() - i,
        {
            proof {
                assert(roots@.subrange(0, i + 1).drop_last() =~= roots@.subrange(0, i as int));
            }
            if !roots[i].control.is_child() && roots[i].kind.can_contain() {
                calls.push(Call::Do { action: Action::ControlDestroy, target: roots[i].control.as_ptr() });
            }
            i += 1;
        }
        proof {
            assert(roots@.subrange(0, i as int) =~= roots@);
        }
        let ghost first = calls@;
        let mut j: usize = 0;
        while j < roots.len()
            invariant
                j <= roots.len(),
                calls@ == first + teardown_pass(roots@.subrange(0, j as int), false),
            decreases roots.len() - j,
        {
            proof {
                assert(roots@.subrange(0, j + 1).drop_last() =~= roots@.subrange(0, j as int));
            }
            if !roots[j].control.is_child() && !roots[j].kind.can_contain() {
                calls.push(Call::Do { action: Action::ControlDestroy, target: roots[j].control.as_ptr() });
                proof {
                    assert(calls@ =~= first + teardown_pass(
                        roots@.subrange(0, j + 1),
                        false,
                    ));
                }
            }
            j += 1;
        }
        proof {
            assert(roots@.subrange(0, j as int) =~= roots@);
        }
        calls
    }

    /// Ends the session. The result is the call that ends the toolkit's work:
    /// it is given once, for the session is gone with it. The arena, and with
    /// it every widget and the slots of the callbacks, goes when this function
    /// returns, so the calls of `teardown` are to be made before it.
    pub fn end(self) -> (call: Call)
        ensures
            call == Call::Uninit,
    {
        Call::Uninit
    }
}

/// A pass of the teardown destroys no child, and nothing but controls among
/// the roots.
pub proof fn lemma_pass_spares_children(roots: Seq<Root>, containers: bool)
    ensures
        forall|i: int|
            0 <= i < teardown_pass(roots, containers).len() ==> exists|k: int|
                0 <= k < roots.len() && !roots[k].control.child() && (#[trigger] teardown_pass(
                    roots,
                    containers,
                )[i]) == destroy(roots[k].control.address()),
    decreases roots.len(),
{
    if roots.len() > 0 {
        let before = roots.drop_last();
        lemma_pass_spares_children(before, containers);
        assert forall|i: int| 0 <= i < teardown_pass(roots, containers).len() implies exists|k: int|
            0 <= k < roots.len() && !roots[k].control.child() && (#[trigger] teardown_pass(
                roots,
                containers,
            )[i]) == destroy(roots[k].control.address()) by {
            if i < teardown_pass(before, containers).len() {
                assert(teardown_pass(roots, containers)[i] == teardown_pass(before, containers)[i]);
                let k = choose|k: int|
                    0 <= k < before.len() && !before[k].control.child() && teardown_pass(
                        before,
                        containers,
                    )[i] == destroy(before[k].control.address());
                assert(roots[k] == before[k]);
            } else {
                let k = roots.len() - 1;
                assert(teardown_pass(roots, containers)[i] == destroy(roots[k].control.address()));
            }
        }
    }
}

/// A pass of the teardown destroys every root that is its to destroy.
pub proof fn lemma_pass_destroys_its_roots(roots: Seq<Root>, containers: bool, k: int)
    requires
        0 <= k < roots.len(),
        destroyed_in_pass(roots[k], containers),
    ensures
        teardown_pass(roots, containers).contains(destroy(roots[k].control.address())),
    decreases roots.len(),
{
    let before = roots.drop_last();
    let calls = teardown_pass(roots, containers);
    if k == roots.len() - 1 {
        assert(calls.last() == destroy(roots[k].control.address()));
    } else {
        assert(before[k] == roots[k]);
        lemma_pass_destroys_its_roots(before, containers, k);
        let earlier = teardown_pass(before, containers);
        let i = choose|i: int|
            0 <= i < earlier.len() && earlier[i] == destroy(roots[k].control.address());
        assert(calls[i] == earlier[i]);
    }
}

/// The teardown destroys every root that is no child.
pub proof fn lemma_teardown_destroys_every_owned_root(roots: Seq<Root>, k: int)
    requires
        0 <= k < roots.len(),
        !roots[k].control.child(),
    ensures
        teardown_calls(roots).contains(destroy(roots[k].control.address())),
{
    let containers = roots[k].kind.can_contain_spec();
    lemma_pass_destroys_its_roots(roots, containers, k);
    let pass = teardown_pass(roots, containers);
    let i = choose|i: int| 0 <= i < pass.len() && pass[i] == destroy(roots[k].control.address());
    if containers {
        assert(teardown_calls(roots)[i] == pass[i]);
    } else {
        let first = teardown_pass(roots, true);
        assert(teardown_calls(roots)[first.len() + i] == pass[i]);
    }
}

/// Every call of the teardown destroys a control among the roots that is no
/// child: what a parent destroys with itself is never destroyed a second time
/// from here.
pub proof fn lemma_teardown_spares_children(roots: Seq<Root>)
    ensures
        forall|i: int|
            0 <= i < teardown_calls(roots).len() ==> exists|k: int|
                0 <= k < roots.len() && !roots[k].control.child() && (#[trigger] teardown_calls(
                    roots,
                )[i]) == destroy(roots[k].control.address()),
{
    lemma_pass_spares_children(roots, true);
    lemma_pass_spares_children(roots, false);
    let first = teardown_pass(roots, true);
    let second = teardown_pass(roots, false);
    assert forall|i: int| 0 <= i < teardown_calls(roots).len() implies exists|k: int|
        0 <= k < roots.len() && !roots[k].control.child() && (#[trigger] teardown_calls(roots)[i])
            == destroy(roots[k].control.address()) by {
        if i < first.len() {
            assert(teardown_calls(roots)[i] == first[i]);
        } else {
            assert(teardown_calls(roots)[i] == second[i - first.len()]);
        }
    }
}

} // verus!
