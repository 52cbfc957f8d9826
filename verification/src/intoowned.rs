//! Conversion of a staged value into its owned, sized form.

use crate::suppressed::Suppressed;
use std::borrow::Borrow;
use vstd::prelude::*;

verus! {

/// Conversion from unsized to sized.
///
/// Similar to `ToOwned`, but by taking ownership rather than duplicating.
pub trait IntoOwned {
    /// The resulting `Sized` type after conversion.
    type Owned: Borrow<Self>;

    /// Performs the conversion: moves the staged value out of the view, which
    /// is left emptied.
    ///
    /// The view must be full. A view can therefore be converted at most once,
    /// and what comes out is the staged value itself, never a duplicate.
    fn into_owned_unchecked(this: &mut Suppressed<Self::Owned>) -> (owned: Self::Owned)
        requires
            old(this).payload().is_some(),
        ensures
            old(this).payload() == Some(owned),
            final(this).payload().is_none(),
    ;
}

/// A sized value is its own owned form.
impl<T> IntoOwned for T {
    type Owned = T;

    fn into_owned_unchecked(this: &mut Suppressed<T>) -> (owned: T) {
        this.take()
    }
}

/// The owned form of a run of values is a growable sequence of them, in the
/// same order.
impl<T> IntoOwned for [T] {
    type Owned = Vec<T>;

    fn into_owned_unchecked(this: &mut Suppressed<Vec<T>>) -> (owned: Vec<T>) {
        this.take()
    }
}

} // verus!
