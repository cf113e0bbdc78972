//! Strategies for map fields.

use vstd::prelude::*;
use crate::models::merge::Merge;
use crate::strmap::StrMap;

verus! {

/// What `overwrite_key` leaves, over the views: the entries of the overlay, and
/// those of the base whose key the overlay does not have.
pub open spec fn keys_overwritten<A>(base: Map<Seq<char>, A>, overlay: Map<Seq<char>, A>) -> Map<
    Seq<char>,
    A,
> {
    base.union_prefer_right(overlay)
}

/// What `recurse` leaves, over the views: under a key of both, the two values
/// merged; under any other key, the value of the side that has it.
pub open spec fn keys_recursed<T: Merge>(
    base: Map<Seq<char>, T::V>,
    overlay: Map<Seq<char>, T::V>,
) -> Map<Seq<char>, T::V> {
    Map::new(
        |k: Seq<char>| base.dom().contains(k) || overlay.dom().contains(k),
        |k: Seq<char>|
            if base.dom().contains(k) && overlay.dom().contains(k) {
                T::merged(base[k], overlay[k])
            } else if overlay.dom().contains(k) {
                overlay[k]
            } else {
                base[k]
            },
    )
}

/// `k` is one of `keys[from..]`.
pub open spec fn among(keys: Seq<Seq<char>>, from: int, k: Seq<char>) -> bool {
    exists|i: int| from <= i < keys.len() && #[trigger] keys[i] == k
}

/// Puts every entry of `right` into `left`, in place of the entry that `left`
/// has under the same key, if any.
pub fn overwrite_key<V: DeepView>(left: &mut StrMap<V>, right: StrMap<V>)
    ensures
        final(left)@ == keys_overwritten(old(left)@, right@),
{
    right.known_order();
    let ghost keys = right.keys();
    let ghost vals = right.values();
    let ghost rv = right@;
    let ghost base = left@;
    let mut entries = right.into_entries();
    while entries.len() > 0
        invariant
            entries@.len() <= keys.len(),
            keys.len() == vals.len(),
            keys.no_duplicates(),
            forall|i: int|
                0 <= i < entries@.len() ==> (#[trigger] entries@[i]).0@ == keys[i]
                    && entries@[i].1.deep_view() == vals[i],
            forall|k: Seq<char>|
                #[trigger] left@.dom().contains(k) <==> base.dom().contains(k) || among(
                    keys,
                    entries@.len() as int,
                    k,
                ),
            forall|i: int|
                entries@.len() <= i < keys.len() ==> #[trigger] left@[keys[i]] == vals[i],
            forall|k: Seq<char>|
                base.dom().contains(k) && !among(keys, entries@.len() as int, k) ==> #[trigger] left@[k]
                    == base[k],
        decreases entries@.len(),
    {
        let ghost m = entries@.len() - 1;
        let ghost before = left@;
        let (k, v) = entries.pop().unwrap();
        left.insert(k, v);
        proof {
            assert(k@ == keys[m]);
            assert forall|x: Seq<char>| among(keys, m, x) <==> (x == keys[m] || among(
                keys,
                m + 1,
                x,
            )) by {
                if among(keys, m, x) {
                    let i = choose|i: int| m <= i < keys.len() && #[trigger] keys[i] == x;
                    if i != m {
                        assert(among(keys, m + 1, x));
                    }
                }
                if among(keys, m + 1, x) {
                    let i = choose|i: int| m + 1 <= i < keys.len() && #[trigger] keys[i] == x;
                    assert(among(keys, m, x));
                }
            }
        }
    }
    proof {
        assert forall|k: Seq<char>| rv.dom().contains(k) <==> among(keys, 0, k) by {
            if rv.dom().contains(k) {
                assert(keys.contains(k));
                let i = keys.index_of(k);
                assert(keys[i] == k);
            }
            if among(keys, 0, k) {
                let i = choose|i: int| 0 <= i < keys.len() && #[trigger] keys[i] == k;
                assert(keys.contains(k));
            }
        }
        assert forall|k: Seq<char>| rv.dom().contains(k) implies #[trigger] left@[k] == rv[k] by {
            assert(keys.contains(k));
            let i = keys.index_of(k);
            assert(keys[i] == k);
            assert(left@[keys[i]] == vals[i]);
            assert(rv[keys[i]] == vals[i]);
        }
        assert(left@ =~= keys_overwritten(base, rv));
    }
}

/// Merges every entry of `right` into the entry that `left` has under the same
/// key, and puts it into `left` where there is none.
pub fn recurse<V: Merge>(left: &mut StrMap<V>, right: StrMap<V>)
    ensures
        final(left)@ == keys_recursed::<V>(old(left)@, right@),
{
    right.known_order();
    let ghost keys = right.keys();
    let ghost vals = right.values();
    let ghost rv = right@;
    let ghost base = left@;
    let mut entries = right.into_entries();
    while entries.len() > 0
        invariant
            entries@.len() <= keys.len(),
            keys.len() == vals.len(),
            keys.no_duplicates(),
            forall|i: int|
                0 <= i < entries@.len() ==> (#[trigger] entries@[i]).0@ == keys[i]
                    && entries@[i].1.deep_view() == vals[i],
            forall|k: Seq<char>|
                #[trigger] left@.dom().contains(k) <==> base.dom().contains(k) || among(
                    keys,
                    entries@.len() as int,
                    k,
                ),
            forall|i: int|
                entries@.len() <= i < keys.len() ==> #[trigger] left@[keys[i]] == if base.dom().contains(
                    keys[i],
                ) {
                    V::merged(base[keys[i]], vals[i])
                } else {
                    vals[i]
                },
            forall|k: Seq<char>|
                base.dom().contains(k) && !among(keys, entries@.len() as int, k) ==> #[trigger] left@[k]
                    == base[k],
        decreases entries@.len(),
    {
        let ghost m = entries@.len() - 1;
        let (k, v) = entries.pop().unwrap();
        proof {
            assert(k@ == keys[m]);
            assert(!among(keys, m + 1, keys[m])) by {
                if among(keys, m + 1, keys[m]) {
                    let i = choose|i: int| m + 1 <= i < keys.len() && #[trigger] keys[i] == keys[m];
                    assert(keys[i] == keys[m]);
                }
            }
            assert forall|x: Seq<char>| among(keys, m, x) <==> (x == keys[m] || among(
                keys,
                m + 1,
                x,
            )) by {
                if among(keys, m, x) {
                    let i = choose|i: int| m <= i < keys.len() && #[trigger] keys[i] == x;
                    if i != m {
                        assert(among(keys, m + 1, x));
                    }
                }
                if among(keys, m + 1, x) {
                    let i = choose|i: int| m + 1 <= i < keys.len() && #[trigger] keys[i] == x;
                    assert(among(keys, m, x));
                }
            }
        }
        match left.remove(k.as_str()) {
            Some(mut existing) => {
                existing.merge(v);
                left.insert(k, existing);
            },
            None => {
                left.insert(k, v);
            },
        }
        proof {
            assert forall|i: int| m <= i < keys.len() implies #[trigger] left@[keys[i]] == if base.dom().contains(
                keys[i],
            ) {
                V::merged(base[keys[i]], vals[i])
            } else {
                vals[i]
            } by {
                if i != m {
                    assert(keys[i] != keys[m]);
                }
            }
        }
    }
    proof {
        assert forall|k: Seq<char>| rv.dom().contains(k) <==> among(keys, 0, k) by {
            if rv.dom().contains(k) {
                assert(keys.contains(k));
                let i = keys.index_of(k);
                assert(keys[i] == k);
            }
            if among(keys, 0, k) {
                let i = choose|i: int| 0 <= i < keys.len() && #[trigger] keys[i] == k;
                assert(keys.contains(k));
            }
        }
        assert forall|k: Seq<char>| rv.dom().contains(k) implies #[trigger] left@[k] == if base.dom().contains(
            k,
        ) {
            V::merged(base[k], rv[k])
        } else {
            rv[k]
        } by {
            assert(keys.contains(k));
            let i = keys.index_of(k);
            assert(keys[i] == k);
            assert(rv[keys[i]] == vals[i]);
        }
        assert(left@ =~= keys_recursed::<V>(base, rv));
    }
}

/// Overwriting the keys of a map from itself leaves it as it is.
pub proof fn lemma_overwrite_key_idempotent<A>(x: Map<Seq<char>, A>)
    ensures
        keys_overwritten(x, x) == x,
{
    assert(keys_overwritten(x, x) =~= x);
}

/// Overwriting keys is associative.
pub proof fn lemma_overwrite_key_associative<A>(
    a: Map<Seq<char>, A>,
    b: Map<Seq<char>, A>,
    c: Map<Seq<char>, A>,
)
    ensures
        keys_overwritten(keys_overwritten(a, b), c) == keys_overwritten(a, keys_overwritten(b, c)),
{
    assert(keys_overwritten(keys_overwritten(a, b), c) =~= keys_overwritten(
        a,
        keys_overwritten(b, c),
    ));
}

/// Merging a map into itself leaves it as it is, where that holds of its values.
pub proof fn lemma_recurse_idempotent<T: Merge>(x: Map<Seq<char>, T::V>)
    requires
        forall|v: T::V| #[trigger] T::merged(v, v) == v,
    ensures
        keys_recursed::<T>(x, x) == x,
{
    assert(keys_recursed::<T>(x, x) =~= x);
}

/// Merging maps key by key is associative, where merging their values is.
pub proof fn lemma_recurse_associative<T: Merge>(
    a: Map<Seq<char>, T::V>,
    b: Map<Seq<char>, T::V>,
    c: Map<Seq<char>, T::V>,
)
    requires
        forall|x: T::V, y: T::V, z: T::V|
            T::merged(#[trigger] T::merged(x, y), z) == T::merged(x, #[trigger] T::merged(y, z)),
    ensures
        keys_recursed::<T>(keys_recursed::<T>(a, b), c) == keys_recursed::<T>(
            a,
            keys_recursed::<T>(b, c),
        ),
{
    assert(keys_recursed::<T>(keys_recursed::<T>(a, b), c) =~= keys_recursed::<T>(
        a,
        keys_recursed::<T>(b, c),
    ));
}

} // verus!
