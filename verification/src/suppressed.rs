//! The destructor-suppressed staging area that every take goes through.

use std::mem::ManuallyDrop;
use vstd::prelude::*;

verus! {

/// A staging area for one payload whose destructor is suppressed.
///
/// A view is *full* while it holds its payload and *emptied* once the payload
/// has been moved out. Letting go of a full view releases the view alone: the
/// payload's destructor does not run.
pub struct Suppressed<V> {
    cell: Option<ManuallyDrop<V>>,
}

impl<V> Suppressed<V> {
    /// The payload that the view holds, or `None` once it has been moved out.
    pub closed spec fn payload(&self) -> Option<V> {
        match self.cell {
            Some(held) => Some(held@),
            None => None,
        }
    }

    /// Stages `value`: the view is full and holds exactly `value`.
    pub fn new(value: V) -> (view: Self)
        ensures
            view.payload() == Some(value),
    {
        Suppressed { cell: Some(ManuallyDrop::new(value)) }
    }

    /// Tells whether the payload is still in the view.
    pub fn is_full(&self) -> (full: bool)
        ensures
            full == self.payload().is_some(),
    {
        self.cell.is_some()
    }

    /// Borrows the payload, which stays in the view; `None` once it has been
    /// moved out.
    pub fn peek(&self) -> (payload: Option<&V>)
        ensures
            match payload {
                Some(held) => self.payload() == Some(*held),
                None => self.payload().is_none(),
            },
    {
        match &self.cell {
            Some(held) => Some(&**held),
            None => None,
        }
    }

    /// Moves the payload out of a full view and leaves the view emptied.
    ///
    /// The payload can be moved out once: an emptied view does not meet the
    /// precondition.
    pub fn take(&mut self) -> (value: V)
        requires
            old(self).payload().is_some(),
        ensures
            old(self).payload() == Some(value),
            final(self).payload().is_none(),
    {
        let held = self.cell.take();
        ManuallyDrop::into_inner(held.unwrap())
    }

    /// Moves the payload out if it is still there. An emptied view gives
    /// `None` and stays emptied.
    pub fn try_take(&mut self) -> (taken: Option<V>)
        ensures
            taken == old(self).payload(),
            final(self).payload().is_none(),
    {
        match self.cell.take() {
            Some(held) => Some(ManuallyDrop::into_inner(held)),
            None => None,
        }
    }
}

/// `f` may be called on every full view whose payload satisfies `staged`.
pub open spec fn admits<V, F, R>(f: F, staged: spec_fn(V) -> bool) -> bool where
    F: FnOnce(&mut Suppressed<V>) -> R,
 {
    forall|view: &mut Suppressed<V>|
        view.payload().is_some() && staged(view.payload().unwrap()) ==> #[trigger] call_requires(
            f,
            (view,),
        )
}

/// `r` is what `f` returned when it was called on some full view whose
/// payload satisfied `staged`.
pub open spec fn extracts<V, F, R>(f: F, staged: spec_fn(V) -> bool, r: R) -> bool where
    F: FnOnce(&mut Suppressed<V>) -> R,
 {
    exists|view: &mut Suppressed<V>|
        view.payload().is_some() && staged(view.payload().unwrap()) && #[trigger] call_ensures(
            f,
            (view,),
            r,
        )
}

/// Stages `payload` in a fresh view and hands the view to `f`. The payload is
/// staged before `f` runs, so nothing that `f` does can have it destroyed a
/// second time. When `f` has returned the view is let go; a payload that `f`
/// left in it is not destroyed.
pub(crate) fn extract<V, F, R>(payload: V, f: F, Ghost(staged): Ghost<spec_fn(V) -> bool>) -> (r:
    R) where F: FnOnce(&mut Suppressed<V>) -> R
    requires
        staged(payload),
        admits(f, staged),
    ensures
        extracts(f, staged, r),
{
    let mut this = Suppressed::new(payload);
    f(&mut this)
}

} // verus!
