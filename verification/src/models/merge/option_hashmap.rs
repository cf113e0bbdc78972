//! Strategies for optional map fields.

use vstd::prelude::*;
use crate::models::merge::hashmap::{keys_overwritten, keys_recursed};
use crate::models::merge::Merge;
use crate::strmap::StrMap;

verus! {

/// What `recurse_some` leaves, over the views: the two maps merged key by key
/// where both are present, else the side that is present.
pub open spec fn some_recursed<T: Merge>(
    base: Option<Map<Seq<char>, T::V>>,
    overlay: Option<Map<Seq<char>, T::V>>,
) -> Option<Map<Seq<char>, T::V>> {
    match (base, overlay) {
        (Some(b), Some(o)) => Some(keys_recursed::<T>(b, o)),
        (None, Some(o)) => Some(o),
        (b, None) => b,
    }
}

/// What `overwrite_key_some` leaves, over the views: the base with the keys of
/// the overlay overwritten where both are present, else the side that is present.
pub open spec fn some_overwritten<A>(
    base: Option<Map<Seq<char>, A>>,
    overlay: Option<Map<Seq<char>, A>>,
) -> Option<Map<Seq<char>, A>> {
    match (base, overlay) {
        (Some(b), Some(o)) => Some(keys_overwritten(b, o)),
        (None, Some(o)) => Some(o),
        (b, None) => b,
    }
}

/// Merges `right` into `left` key by key if both are `Some`; takes `right` if
/// `left` is `None` and `right` is `Some`.
pub fn recurse_some<V: Merge>(left: &mut Option<StrMap<V>>, right: Option<StrMap<V>>)
    ensures
        final(left).deep_view() == some_recursed::<V>(old(left).deep_view(), right.deep_view()),
{
    if let Some(new) = right {
        let taken = left.take();
        match taken {
            Some(mut base) => {
                crate::models::merge::hashmap::recurse(&mut base, new);
                *left = Some(base);
            },
            None => {
                *left = Some(new);
            },
        }
    }
}

/// Overwrites the keys of `left` from `right` if both are `Some`; takes `right`
/// if `left` is `None` and `right` is `Some`.
pub fn overwrite_key_some<V: DeepView>(left: &mut Option<StrMap<V>>, right: Option<StrMap<V>>)
    ensures
        final(left).deep_view() == some_overwritten(old(left).deep_view(), right.deep_view()),
{
    if let Some(new) = right {
        let taken = left.take();
        match taken {
            Some(mut base) => {
                crate::models::merge::hashmap::overwrite_key(&mut base, new);
                *left = Some(base);
            },
            None => {
                *left = Some(new);
            },
        }
    }
}

/// Overwriting the keys of an optional map from itself leaves it as it is.
pub proof fn lemma_overwrite_key_some_idempotent<A>(x: Option<Map<Seq<char>, A>>)
    ensures
        some_overwritten(x, x) == x,
{
    if x is Some {
        assert(keys_overwritten(x->0, x->0) =~= x->0);
    }
}

/// Merging an optional map into itself leaves it as it is, where that holds of
/// its values.
pub proof fn lemma_recurse_some_idempotent<T: Merge>(x: Option<Map<Seq<char>, T::V>>)
    requires
        forall|v: T::V| #[trigger] T::merged(v, v) == v,
    ensures
        some_recursed::<T>(x, x) == x,
{
    if x is Some {
        assert(keys_recursed::<T>(x->0, x->0) =~= x->0);
    }
}

/// Merging optional maps key by key is associative, where merging their values
/// is.
pub proof fn lemma_recurse_some_associative<T: Merge>(
    a: Option<Map<Seq<char>, T::V>>,
    b: Option<Map<Seq<char>, T::V>>,
    c: Option<Map<Seq<char>, T::V>>,
)
    requires
        forall|x: T::V, y: T::V, z: T::V|
            T::merged(#[trigger] T::merged(x, y), z) == T::merged(x, #[trigger] T::merged(y, z)),
    ensures
        some_recursed::<T>(some_recursed::<T>(a, b), c) == some_recursed::<T>(
            a,
            some_recursed::<T>(b, c),
        ),
{
    if a is Some && b is Some && c is Some {
        crate::models::merge::hashmap::lemma_recurse_associative::<T>(a->0, b->0, c->0);
    }
}

} // verus!
