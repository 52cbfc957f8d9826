//! Taking a value of a given type out of any source that can give one up.

use crate::dereftake::DerefTake;
use crate::intoowned::IntoOwned;
use crate::suppressed::Suppressed;
#[allow(unused_imports)]
use crate::suppressed::admits;
use crate::suppressed::extract;
#[allow(unused_imports)]
use crate::suppressed::extracts;
use std::mem::ManuallyDrop;
use vstd::prelude::*;

verus! {

/// A trait for taking data.
///
/// Implementing `Take<T>` is like implementing `Borrow<T>` but for
/// transferring ownership.
pub trait Take<T: ?Sized + IntoOwned>: Sized {
    /// Whether `owned` is an owned form of the value that this source gives
    /// up when it is taken from.
    spec fn gives(self, owned: T::Owned) -> bool;

    /// Takes ownership of `Sized` type.
    fn take_sized(self) -> (value: T) where T: Sized + IntoOwned<Owned = T>
        ensures
            self.gives(value),
    {
        self.take_unsized(<T as IntoOwned>::into_owned_unchecked)
    }

    /// Takes ownership of the owned version of an unsized type.
    fn take_owned(self) -> (owned: T::Owned)
        ensures
            self.gives(owned),
    {
        self.take_unsized(<T as IntoOwned>::into_owned_unchecked)
    }

    /// Takes ownership of an unsized type with the aid of a closure.
    ///
    /// The closure is called once, with a mutable reference to a full view of
    /// the value, and its result is handed back. After the closure returns
    /// the view is released, but the destructor of a value that the closure
    /// left in it is not run.
    ///
    /// `take_sized()` and `take_owned()` are implemented in terms of this.
    fn take_unsized<F, R>(self, f: F) -> (r: R) where F: FnOnce(&mut Suppressed<T::Owned>) -> R
        requires
            admits(f, |owned: T::Owned| self.gives(owned)),
        ensures
            extracts(f, |owned: T::Owned| self.gives(owned), r),
    ;
}

/// A plain value gives up itself.
impl<T> Take<T> for T {
    open spec fn gives(self, owned: T) -> bool {
        owned == self
    }

    fn take_unsized<F, R>(self, f: F) -> (r: R) where F: FnOnce(&mut Suppressed<T>) -> R {
        let ghost staged = |owned: T| self.gives(owned);
        extract(self, f, Ghost(staged))
    }
}

/// An explicit-ownership wrapper gives up what it yields as a container: the
/// value it wraps.
impl<T> Take<T> for ManuallyDrop<T> {
    open spec fn gives(self, owned: T) -> bool {
        DerefTake::yields(self, owned)
    }

    fn take_unsized<F, R>(self, f: F) -> (r: R) where F: FnOnce(&mut Suppressed<T>) -> R {
        self.deref_take_unsized(f)
    }
}

/// An exclusive box gives up what it yields as a container: the value it
/// holds.
impl<T> Take<T> for Box<T> {
    open spec fn gives(self, owned: T) -> bool {
        DerefTake::yields(self, owned)
    }

    fn take_unsized<F, R>(self, f: F) -> (r: R) where F: FnOnce(&mut Suppressed<T>) -> R {
        self.deref_take_unsized(f)
    }
}

/// An exclusive box of a run gives up what it yields as a container: its
/// elements, in order.
impl<T> Take<[T]> for Box<[T]> {
    open spec fn gives(self, owned: Vec<T>) -> bool {
        DerefTake::yields(self, owned)
    }

    fn take_unsized<F, R>(self, f: F) -> (r: R) where F: FnOnce(&mut Suppressed<Vec<T>>) -> R {
        self.deref_take_unsized(f)
    }
}

/// A growable sequence gives up what it yields as a container: all of its
/// elements, in order.
impl<T> Take<[T]> for Vec<T> {
    open spec fn gives(self, owned: Vec<T>) -> bool {
        DerefTake::yields(self, owned)
    }

    fn take_unsized<F, R>(self, f: F) -> (r: R) where F: FnOnce(&mut Suppressed<Vec<T>>) -> R {
        self.deref_take_unsized(f)
    }
}

} // verus!
