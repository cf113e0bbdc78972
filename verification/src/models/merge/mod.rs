//! Merging of layered descriptors: a base value takes in an overlay, field by
//! field, each field under the strategy that its type declares for it.

use vstd::prelude::*;

pub mod hashmap;
pub mod option;
pub mod option_hashmap;
pub mod option_vec;
pub mod vec;

verus! {

/// A descriptor that can take in an overlay of its own type.
pub trait Merge: DeepView + Sized {
    /// The view of the descriptor that `merge` leaves, from the views of the base
    /// and of the overlay.
    spec fn merged(base: Self::V, overlay: Self::V) -> Self::V;

    /// Merges `other` into `self`.
    fn merge(&mut self, other: Self)
        ensures
            final(self).deep_view() == Self::merged(old(self).deep_view(), other.deep_view()),
    ;
}

/// What `overwrite` leaves: the overlay.
pub open spec fn overwritten<T>(base: T, overlay: T) -> T {
    overlay
}

/// Replaces `left` by `right`.
pub fn overwrite<T>(left: &mut T, right: T)
    ensures
        *final(left) == overwritten(*old(left), right),
{
    *left = right;
}

/// Overwriting a value by itself leaves it as it is.
pub proof fn lemma_overwrite_idempotent<T>(x: T)
    ensures
        overwritten(x, x) == x,
{
}

} // verus!
