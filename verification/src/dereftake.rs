//! Taking the payload out of an owning container.

use crate::intoowned::IntoOwned;
use crate::suppressed::Suppressed;
#[allow(unused_imports)]
use crate::suppressed::admits;
use crate::suppressed::extract;
#[allow(unused_imports)]
use crate::suppressed::extracts;
use std::mem::ManuallyDrop;
use std::ops::Deref;
use std::rc::Rc;
use vstd::prelude::*;

verus! {

/// `Deref`, but for taking ownership.
pub trait DerefTake: Deref where Self::Target: IntoOwned {
    /// Whether `owned` is an owned form of the payload that this container
    /// gives up when it is taken from.
    spec fn yields(self, owned: <Self::Target as IntoOwned>::Owned) -> bool;

    /// Takes ownership, consuming the container.
    fn deref_take(self) -> (owned: <Self::Target as IntoOwned>::Owned)
        ensures
            self.yields(owned),
    ;

    /// Takes ownership with the aid of a closure.
    ///
    /// The closure is called once, with a mutable reference to a full view of
    /// the payload, and its result is handed back. The container's shell is
    /// released; the destructor of a payload that the closure left in the
    /// view is not run.
    fn deref_take_unsized<F, R>(self, f: F) -> (r: R) where
        F: FnOnce(&mut Suppressed<<Self::Target as IntoOwned>::Owned>) -> R,

        requires
            admits(f, |owned: <Self::Target as IntoOwned>::Owned| self.yields(owned)),
        ensures
            extracts(f, |owned: <Self::Target as IntoOwned>::Owned| self.yields(owned), r),
    ;
}

/// An exclusive box gives up the value it holds: the allocation is freed and
/// the value moves out untouched.
impl<T> DerefTake for Box<T> {
    open spec fn yields(self, owned: T) -> bool {
        owned == *self
    }

    fn deref_take(self) -> (owned: T)
        ensures
            owned == *self,
    {
        self.deref_take_unsized(<T as IntoOwned>::into_owned_unchecked)
    }

    fn deref_take_unsized<F, R>(self, f: F) -> (r: R) where F: FnOnce(&mut Suppressed<T>) -> R {
        let ghost staged = |owned: T| self.yields(owned);
        extract(*self, f, Ghost(staged))
    }
}

/// An exclusive box of a run gives up its elements, in order, as a growable
/// sequence.
impl<T> DerefTake for Box<[T]> {
    open spec fn yields(self, owned: Vec<T>) -> bool {
        owned@ == self@
    }

    fn deref_take(self) -> (owned: Vec<T>)
        ensures
            owned@ == self@,
    {
        self.deref_take_unsized(<[T] as IntoOwned>::into_owned_unchecked)
    }

    fn deref_take_unsized<F, R>(self, f: F) -> (r: R) where
        F: FnOnce(&mut Suppressed<Vec<T>>) -> R,
     {
        let ghost staged = |owned: Vec<T>| self.yields(owned);
        extract(self.into_vec(), f, Ghost(staged))
    }
}

/// Moves every element of `shell`, in order, into a fresh buffer of the same
/// length. The shell is left with no element: releasing it afterwards frees
/// its buffer and destroys nothing.
pub fn move_run<T>(shell: &mut Vec<T>) -> (run: Vec<T>)
    ensures
        run@ == old(shell)@,
        final(shell)@ == Seq::<T>::empty(),
{
    let len: usize = shell.len();
    let mut run = Vec::with_capacity(len);
    run.append(shell);
    run
}

/// A growable sequence gives up all of its elements, in order. Its shell is
/// emptied before the elements are staged, so that releasing it destroys
/// none of them.
impl<T> DerefTake for Vec<T> {
    open spec fn yields(self, owned: Vec<T>) -> bool {
        owned@ == self@
    }

    fn deref_take(self) -> (owned: Vec<T>)
        ensures
            owned@ == self@,
    {
        self.deref_take_unsized(<[T] as IntoOwned>::into_owned_unchecked)
    }

    fn deref_take_unsized<F, R>(self, f: F) -> (r: R) where
        F: FnOnce(&mut Suppressed<Vec<T>>) -> R,
     {
        let ghost staged = |owned: Vec<T>| self.yields(owned);
        let mut shell = self;
        extract(move_run(&mut shell), f, Ghost(staged))
    }
}

/// An explicit-ownership wrapper gives up the value it wraps. Nothing is
/// allocated or freed.
impl<T> DerefTake for ManuallyDrop<T> {
    open spec fn yields(self, owned: T) -> bool {
        owned == self@
    }

    fn deref_take(self) -> (owned: T)
        ensures
            owned == self@,
    {
        self.deref_take_unsized(<T as IntoOwned>::into_owned_unchecked)
    }

    fn deref_take_unsized<F, R>(self, f: F) -> (r: R) where F: FnOnce(&mut Suppressed<T>) -> R {
        let ghost staged = |owned: T| self.yields(owned);
        extract(ManuallyDrop::into_inner(self), f, Ghost(staged))
    }
}

/// Settles what releasing one handle of a shared box gave back.
///
/// Where the handle was the sole owner, `released` holds the payload, and the
/// payload itself is returned: it is not duplicated. Where other owners
/// exist, `released` holds the handle, still shared: the payload is
/// duplicated through it and the handle is let go, which leaves the shared
/// payload to the owners that remain.
pub fn unshare<T: Clone>(released: Result<T, Rc<T>>) -> (payload: T)
    ensures
        match released {
            Ok(sole) => payload == sole,
            Err(shared) => cloned(*shared, payload),
        },
{
    match released {
        Ok(sole) => sole,
        Err(shared) => (*shared).clone(),
    }
}

/// A shared box gives up its payload where this handle is the sole owner, and
/// a duplicate of it where other owners exist. Which of the two holds is not
/// a property of the handle's value, so the relation admits both.
impl<T: Clone> DerefTake for Rc<T> {
    open spec fn yields(self, owned: T) -> bool {
        cloned(*self, owned)
    }

    fn deref_take(self) -> (owned: T)
        ensures
            cloned(*self, owned),
    {
        self.deref_take_unsized(<T as IntoOwned>::into_owned_unchecked)
    }

    fn deref_take_unsized<F, R>(self, f: F) -> (r: R) where F: FnOnce(&mut Suppressed<T>) -> R {
        let ghost staged = |owned: T| self.yields(owned);
        extract(unshare(Rc::try_unwrap(self)), f, Ghost(staged))
    }
}

} // verus!
