//! The slot in which a widget keeps the callback for one of its events.

use vstd::prelude::*;

verus! {

/// The place of a widget's callback for one event.
///
/// The toolkit calls back through the slot for as long as the widget lives, so
/// the slot belongs to the widget and the widget stays where it was put. A new
/// callback takes the place of the one before it.
#[derive(Debug)]
pub struct Slot<F> {
    callback: Option<F>,
}

impl<F> Slot<F> {
    /// The callback that the slot holds, if any.
    pub closed spec fn held(self) -> Option<F> {
        self.callback
    }

    /// A slot that holds no callback.
    pub fn empty() -> (slot: Self)
        ensures
            slot.held() is None,
    {
        Slot { callback: None }
    }

    /// Puts `callback` into the slot and hands out the one that it replaces,
    /// which is called no more.
    pub fn set(&mut self, callback: F) -> (replaced: Option<F>)
        ensures
            final(self).held() == Some(callback),
            replaced == old(self).held(),
    {
        let replaced = self.callback.take();
        self.callback = Some(callback);
        replaced
    }

    /// Tells whether the slot holds a callback.
    pub fn is_set(&self) -> (r: bool)
        ensures
            r == self.held() is Some,
    {
        self.callback.is_some()
    }

    /// The callback to run when the event comes.
    pub fn get(&self) -> (callback: Option<&F>)
        ensures
            callback == match self.held() {
                Some(f) => Some(&f),
                None => None,
            },
    {
        self.callback.as_ref()
    }

    /// The callback to run when the event comes, for one that changes as it
    /// runs.
    pub fn get_mut(&mut self) -> (callback: Option<&mut F>)
        ensures
            match callback {
                Some(f) => old(self).held() == Some(*f) && final(self).held() == Some(*final(f)),
                None => old(self).held() is None && final(self).held() is None,
            },
    {
        self.callback.as_mut()
    }
}

} // verus!
