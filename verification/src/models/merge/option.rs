//! Strategies for optional fields.

use vstd::prelude::*;
use crate::models::merge::Merge;

verus! {

/// What `overwrite_none` leaves: the base where it is present, else the overlay.
pub open spec fn filled<T>(base: Option<T>, overlay: Option<T>) -> Option<T> {
    if base is None {
        overlay
    } else {
        base
    }
}

/// What `overwrite_some` leaves: the overlay where it is present, else the base.
pub open spec fn replaced<T>(base: Option<T>, overlay: Option<T>) -> Option<T> {
    if overlay is Some {
        overlay
    } else {
        base
    }
}

/// What `recurse` leaves, over the views: both sides merged where both are
/// present, else the side that is present.
pub open spec fn recursed<T: Merge>(base: Option<T::V>, overlay: Option<T::V>) -> Option<T::V> {
    match (base, overlay) {
        (Some(b), Some(o)) => Some(T::merged(b, o)),
        (None, Some(o)) => Some(o),
        (b, None) => b,
    }
}

/// Overwrites `left` with `right` only if `left` is `None`.
pub fn overwrite_none<T>(left: &mut Option<T>, right: Option<T>)
    ensures
        *final(left) == filled(*old(left), right),
{
    if left.is_none() {
        *left = right;
    }
}

/// Overwrites `left` with `right` only if `right` is `Some`.
pub fn overwrite_some<T>(left: &mut Option<T>, right: Option<T>)
    ensures
        *final(left) == replaced(*old(left), right),
{
    if let Some(new) = right {
        *left = Some(new);
    }
}

/// If both `left` and `right` are `Some`, merges the two. Otherwise the side
/// that is present stays.
pub fn recurse<T: Merge>(left: &mut Option<T>, right: Option<T>)
    ensures
        final(left).deep_view() == recursed::<T>(old(left).deep_view(), right.deep_view()),
{
    if let Some(new) = right {
        let taken = left.take();
        match taken {
            Some(mut base) => {
                base.merge(new);
                *left = Some(base);
            },
            None => {
                *left = Some(new);
            },
        }
    }
}

/// Filling an option from itself leaves it as it is.
pub proof fn lemma_overwrite_none_idempotent<T>(x: Option<T>)
    ensures
        filled(x, x) == x,
{
}

/// Replacing an option by itself leaves it as it is.
pub proof fn lemma_overwrite_some_idempotent<T>(x: Option<T>)
    ensures
        replaced(x, x) == x,
{
}

/// Replacing where the overlay is present is associative.
pub proof fn lemma_overwrite_some_associative<T>(a: Option<T>, b: Option<T>, c: Option<T>)
    ensures
        replaced(replaced(a, b), c) == replaced(a, replaced(b, c)),
{
}

/// Merging an option into itself leaves it as it is, where that holds of the
/// values inside.
pub proof fn lemma_recurse_idempotent<T: Merge>(x: Option<T::V>)
    requires
        forall|v: T::V| #[trigger] T::merged(v, v) == v,
    ensures
        recursed::<T>(x, x) == x,
{
}

/// Merging options is associative, where that holds of the values inside.
pub proof fn lemma_recurse_associative<T: Merge>(a: Option<T::V>, b: Option<T::V>, c: Option<T::V>)
    requires
        forall|x: T::V, y: T::V, z: T::V|
            T::merged(#[trigger] T::merged(x, y), z) == T::merged(x, #[trigger] T::merged(y, z)),
    ensures
        recursed::<T>(recursed::<T>(a, b), c) == recursed::<T>(a, recursed::<T>(b, c)),
{
}

} // verus!
