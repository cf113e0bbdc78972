//! A map from strings to values that keeps its entries in the order of their
//! keys, so that walking it always gives the same sequence.

use vstd::prelude::*;
use crate::order::{seq_lt, str_place, Place, lemma_lt_transitive, lemma_lt_irreflexive};

verus! {

/// The keys of `entries`, in order.
pub open spec fn keys_of<V>(entries: Seq<(String, V)>) -> Seq<Seq<char>> {
    Seq::new(entries.len(), |i: int| entries[i].0@)
}

/// Every key comes strictly before all later ones.
pub open spec fn strictly_sorted(keys: Seq<Seq<char>>) -> bool {
    forall|i: int, j: int| 0 <= i < j < keys.len() ==> seq_lt(#[trigger] keys[i], #[trigger] keys[j])
}

/// A map from `String` to `V`, ordered by key.
#[derive(Debug, PartialEq, Eq)]
pub struct StrMap<V> {
    entries: Vec<(String, V)>,
}

impl<V: DeepView> View for StrMap<V> {
    type V = Map<Seq<char>, V::V>;

    closed spec fn view(&self) -> Map<Seq<char>, V::V> {
        Map::new(
            |k: Seq<char>| keys_of(self.entries@).contains(k),
            |k: Seq<char>| self.entries@[keys_of(self.entries@).index_of(k)].1.deep_view(),
        )
    }
}

impl<V: DeepView> DeepView for StrMap<V> {
    type V = Map<Seq<char>, V::V>;

    open spec fn deep_view(&self) -> Map<Seq<char>, V::V> {
        self@
    }
}

impl<V> StrMap<V> {
    #[verifier::type_invariant]
    closed spec fn sorted(&self) -> bool {
        strictly_sorted(keys_of(self.entries@))
    }
}

impl<V: DeepView> Default for StrMap<V> {
    fn default() -> (m: Self)
        ensures
            m@ == Map::<Seq<char>, V::V>::empty(),
    {
        StrMap::new()
    }
}

impl<V: DeepView> StrMap<V> {
    /// The keys, in the order in which the map is walked.
    pub closed spec fn keys(&self) -> Seq<Seq<char>> {
        keys_of(self.entries@)
    }

    /// The values, in the order of their keys.
    pub closed spec fn values(&self) -> Seq<V::V> {
        Seq::new(self.entries@.len(), |i: int| self.entries@[i].1.deep_view())
    }

    /// Does nothing when run. To the verifier it shows how `keys`, `values` and
    /// the view hang together: the keys are strictly sorted and are the domain of
    /// the view, and each value stands at the place of its key.
    pub fn known_order(&self)
        ensures
            strictly_sorted(self.keys()),
            self.keys().len() == self.values().len(),
            self.keys().no_duplicates(),
            forall|k: Seq<char>| self@.dom().contains(k) <==> self.keys().contains(k),
            forall|i: int|
                0 <= i < self.keys().len() ==> #[trigger] self@[self.keys()[i]] == self.values()[i],
            self@.dom().finite(),
            self@.dom().len() == self.keys().len(),
    {
        proof {
            use_type_invariant(self);
            let keys = keys_of(self.entries@);
            lemma_sorted_no_duplicates(keys);
            assert forall|i: int| 0 <= i < keys.len() implies #[trigger] self@[keys[i]]
                == self.values()[i] by {
                let j = keys.index_of(keys[i]);
                assert(keys.contains(keys[i]));
                assert(keys[j] == keys[i]);
            }
            keys.unique_seq_to_set();
            assert(self@.dom() =~= keys.to_set());
        }
    }

    /// An empty map.
    pub fn new() -> (m: Self)
        ensures
            m@ == Map::<Seq<char>, V::V>::empty(),
            m.keys() == Seq::<Seq<char>>::empty(),
    {
        let m = StrMap { entries: Vec::new() };
        assert(m@ =~= Map::<Seq<char>, V::V>::empty());
        assert(m.keys() =~= Seq::<Seq<char>>::empty());
        m
    }

    /// The number of entries.
    pub fn len(&self) -> (n: usize)
        ensures
            n == self.keys().len(),
    {
        self.entries.len()
    }

    /// The key at place `i`.
    pub fn key_at(&self, i: usize) -> (k: &String)
        requires
            i < self.keys().len(),
        ensures
            k@ == self.keys()[i as int],
    {
        &self.entries[i].0
    }

    /// The value at place `i`.
    pub fn value_at(&self, i: usize) -> (v: &V)
        requires
            i < self.keys().len(),
        ensures
            v.deep_view() == self.values()[i as int],
    {
        &self.entries[i].1
    }

    /// The place where `key` stands, or where it would have to stand.
    fn locate(&self, key: &str) -> (r: (usize, bool))
        ensures
            r.0 <= self.entries@.len(),
            r.1 ==> r.0 < self.entries@.len() && self.entries@[r.0 as int].0@ == key@,
            !r.1 ==> !keys_of(self.entries@).contains(key@),
            forall|i: int| 0 <= i < r.0 ==> seq_lt(#[trigger] self.entries@[i].0@, key@),
            forall|i: int|
                r.0 <= i < self.entries@.len() && !(r.1 && i == r.0) ==> seq_lt(
                    key@,
                    #[trigger] self.entries@[i].0@,
                ),
    {
        proof {
            use_type_invariant(self);
        }
        let ghost keys = keys_of(self.entries@);
        let mut lo: usize = 0;
        let mut hi: usize = self.entries.len();
        while lo < hi
            invariant
                lo <= hi <= self.entries@.len(),
                keys == keys_of(self.entries@),
                strictly_sorted(keys),
                forall|k: int| 0 <= k < lo ==> seq_lt(#[trigger] self.entries@[k].0@, key@),
                forall|k: int|
                    hi <= k < self.entries@.len() ==> seq_lt(key@, #[trigger] self.entries@[k].0@),
            decreases hi - lo,
        {
            let mid = lo + (hi - lo) / 2;
            let p = str_place(self.entries[mid].0.as_str(), key);
            match p {
                Place::Before => {
                    proof {
                        assert forall|k: int| 0 <= k < mid + 1 implies seq_lt(
                            #[trigger] self.entries@[k].0@,
                            key@,
                        ) by {
                            if k < mid {
                                assert(seq_lt(keys[k], keys[mid as int]));
                                lemma_lt_transitive(keys[k], keys[mid as int], key@);
                            }
                        }
                    }
                    lo = mid + 1;
                },
                Place::Same => {
                    proof {
                        assert forall|k: int| 0 <= k < mid implies seq_lt(
                            #[trigger] self.entries@[k].0@,
                            key@,
                        ) by {
                            assert(seq_lt(keys[k], keys[mid as int]));
                        }
                        assert forall|k: int| mid < k < self.entries@.len() implies seq_lt(
                            key@,
                            #[trigger] self.entries@[k].0@,
                        ) by {
                            assert(seq_lt(keys[mid as int], keys[k]));
                        }
                    }
                    return (mid, true);
                },
                Place::After => {
                    proof {
                        assert forall|k: int| mid <= k < self.entries@.len() implies seq_lt(
                            key@,
                            #[trigger] self.entries@[k].0@,
                        ) by {
                            if k > mid {
                                assert(seq_lt(keys[mid as int], keys[k]));
                                lemma_lt_transitive(key@, keys[mid as int], keys[k]);
                            }
                        }
                    }
                    hi = mid;
                },
            }
        }
        proof {
            lemma_absent(keys, key@, lo as int);
        }
        (lo, false)
    }

    /// Whether `key` has an entry.
    pub fn contains_key(&self, key: &str) -> (r: bool)
        ensures
            r == self@.dom().contains(key@),
    {
        let (i, found) = self.locate(key);
        proof {
            if found {
                assert(keys_of(self.entries@)[i as int] == key@);
            }
        }
        found
    }

    /// The value under `key`, if there is one.
    pub fn get(&self, key: &str) -> (r: Option<&V>)
        ensures
            match r {
                Some(v) => self@.dom().contains(key@) && self@[key@] == v.deep_view(),
                None => !self@.dom().contains(key@),
            },
    {
        let (i, found) = self.locate(key);
        if found {
            proof {
                use_type_invariant(self);
                let keys = keys_of(self.entries@);
                lemma_sorted_no_duplicates(keys);
                assert(keys[i as int] == key@);
                assert(keys.contains(key@));
                assert(keys.index_of(key@) == i);
            }
            Some(&self.entries[i].1)
        } else {
            None
        }
    }

    /// Puts `value` under `key`, and gives back the value that was there.
    pub fn insert(&mut self, key: String, value: V) -> (r: Option<V>)
        ensures
            final(self)@ == old(self)@.insert(key@, value.deep_view()),
            match r {
                Some(v) => old(self)@.dom().contains(key@) && old(self)@[key@] == v.deep_view(),
                None => !old(self)@.dom().contains(key@),
            },
    {
        let (i, found) = self.locate(key.as_str());
        let ghost before = self.entries@;
        let ghost kb = keys_of(before);
        let ghost old_view = self@;
        proof {
            use_type_invariant(&*self);
            lemma_sorted_no_duplicates(kb);
        }
        let mut taken = StrMap { entries: Vec::new() };
        core::mem::swap(self, &mut taken);
        let mut entries = taken.entries;
        assert(entries@ == before);
        if found {
            let ghost put = value.deep_view();
            let mut held = value;
            core::mem::swap(&mut entries[i].1, &mut held);
            proof {
                assert(kb[i as int] == key@);
                assert(keys_of(entries@) =~= kb);
            }
            *self = StrMap { entries };
            proof {
                let after = self.entries@;
                let ka = keys_of(after);
                assert(ka =~= kb);
                assert(kb[i as int] == key@);
                assert(kb.contains(key@));
                assert(kb.index_of(key@) == i);
                assert forall|k: Seq<char>| #[trigger] ka.contains(k) && k != key@ implies after[ka.index_of(
                    k,
                )].1.deep_view() == before[kb.index_of(k)].1.deep_view() by {
                    let j = ka.index_of(k);
                    assert(j != i);
                    assert(after[j] == before[j]);
                }
                assert(self@ =~= old_view.insert(key@, put));
            }
            Some(held)
        } else {
            entries.insert(i, (key, value));
            proof {
                let after = entries@;
                let ka = keys_of(after);
                assert(ka =~= kb.insert(i as int, key@));
                assert forall|a: int, b: int| 0 <= a < b < ka.len() implies seq_lt(
                    #[trigger] ka[a],
                    #[trigger] ka[b],
                ) by {
                    if a < i && b > i {
                        assert(seq_lt(kb[a], key@));
                        assert(seq_lt(key@, kb[b - 1]));
                        lemma_lt_transitive(kb[a], key@, kb[b - 1]);
                    } else if a < i && b < i {
                        assert(seq_lt(kb[a], kb[b]));
                    } else if a > i {
                        assert(seq_lt(kb[a - 1], kb[b - 1]));
                    } else if a == i {
                        assert(seq_lt(key@, kb[b - 1]));
                    } else {
                        assert(seq_lt(kb[a], key@));
                    }
                }
                lemma_sorted_no_duplicates(ka);
            }
            *self = StrMap { entries };
            proof {
                let after = self.entries@;
                let ka = keys_of(after);
                assert(ka[i as int] == key@);
                assert(ka.contains(key@));
                assert(ka.index_of(key@) == i);
                assert forall|k: Seq<char>| #[trigger] ka.contains(k) <==> (kb.contains(k) || k
                    == key@) by {
                    if ka.contains(k) {
                        let j = ka.index_of(k);
                        if j < i {
                            assert(kb[j] == k);
                        } else if j > i {
                            assert(kb[j - 1] == k);
                        }
                    }
                    if kb.contains(k) {
                        let j = kb.index_of(k);
                        if j < i {
                            assert(ka[j] == k);
                        } else {
                            assert(ka[j + 1] == k);
                        }
                    }
                }
                assert forall|k: Seq<char>| #[trigger] kb.contains(k) implies after[ka.index_of(
                    k,
                )].1.deep_view() == before[kb.index_of(k)].1.deep_view() by {
                    let j = kb.index_of(k);
                    let j2 = if j < i { j } else { j + 1 };
                    assert(ka[j2] == k);
                    assert(ka.contains(k));
                    assert(ka.index_of(k) == j2);
                }
                assert(self@ =~= old_view.insert(key@, value.deep_view()));
            }
            None
        }
    }

    /// Takes the entry under `key` out of the map, and gives back its value.
    pub fn remove(&mut self, key: &str) -> (r: Option<V>)
        ensures
            final(self)@ == old(self)@.remove(key@),
            match r {
                Some(v) => old(self)@.dom().contains(key@) && old(self)@[key@] == v.deep_view(),
                None => !old(self)@.dom().contains(key@),
            },
    {
        let (i, found) = self.locate(key);
        let ghost before = self.entries@;
        let ghost kb = keys_of(before);
        let ghost old_view = self@;
        proof {
            use_type_invariant(&*self);
            lemma_sorted_no_duplicates(kb);
        }
        if !found {
            assert(self@ =~= old_view.remove(key@));
            return None;
        }
        let mut taken = StrMap { entries: Vec::new() };
        core::mem::swap(self, &mut taken);
        let mut entries = taken.entries;
        let old_entry = entries.remove(i);
        proof {
            let ka = keys_of(entries@);
            assert(ka =~= kb.remove(i as int));
            assert forall|a: int, b: int| 0 <= a < b < ka.len() implies seq_lt(
                #[trigger] ka[a],
                #[trigger] ka[b],
            ) by {
                let a0 = if a < i { a } else { a + 1 };
                let b0 = if b < i { b } else { b + 1 };
                assert(seq_lt(kb[a0], kb[b0]));
            }
            lemma_sorted_no_duplicates(ka);
        }
        *self = StrMap { entries };
        proof {
            let after = self.entries@;
            let ka = keys_of(after);
            assert(kb[i as int] == key@);
            assert(kb.contains(key@));
            assert(kb.index_of(key@) == i);
            assert forall|k: Seq<char>| #[trigger] ka.contains(k) <==> (kb.contains(k) && k
                != key@) by {
                if ka.contains(k) {
                    let j = ka.index_of(k);
                    let j0 = if j < i { j } else { j + 1 };
                    assert(kb[j0] == k);
                    assert(kb.index_of(k) == j0);
                }
                if kb.contains(k) && k != key@ {
                    let j = kb.index_of(k);
                    let j1 = if j < i { j } else { j - 1 };
                    assert(ka[j1] == k);
                }
            }
            assert forall|k: Seq<char>| #[trigger] ka.contains(k) implies after[ka.index_of(
                k,
            )].1.deep_view() == before[kb.index_of(k)].1.deep_view() by {
                let j = ka.index_of(k);
                let j0 = if j < i { j } else { j + 1 };
                assert(kb[j0] == k);
                assert(kb.index_of(k) == j0);
            }
            assert(self@ =~= old_view.remove(key@));
        }
        Some(old_entry.1)
    }

    /// The place of `key` among the keys, if it has an entry.
    pub fn index_of_key(&self, key: &str) -> (r: Option<usize>)
        ensures
            match r {
                Some(i) => i < self.keys().len() && self.keys()[i as int] == key@,
                None => !self@.dom().contains(key@),
            },
    {
        let (i, found) = self.locate(key);
        if found {
            Some(i)
        } else {
            None
        }
    }

    /// Puts `value` at the place `i`, under the key that stands there, and gives
    /// back the value that was there.
    pub fn replace_at(&mut self, i: usize, value: V) -> (r: V)
        requires
            i < old(self).keys().len(),
        ensures
            final(self).keys() == old(self).keys(),
            final(self).values() == old(self).values().update(i as int, value.deep_view()),
            r.deep_view() == old(self).values()[i as int],
            final(self)@ == old(self)@.insert(old(self).keys()[i as int], value.deep_view()),
    {
        let ghost before = self.entries@;
        let ghost kb = keys_of(before);
        let ghost old_view = self@;
        let ghost old_values = self.values();
        proof {
            use_type_invariant(&*self);
            lemma_sorted_no_duplicates(kb);
        }
        let mut taken = StrMap { entries: Vec::new() };
        core::mem::swap(self, &mut taken);
        let mut entries = taken.entries;
        let ghost key = kb[i as int];
        let ghost put = value.deep_view();
        let mut held = value;
        core::mem::swap(&mut entries[i].1, &mut held);
        proof {
            assert(keys_of(entries@) =~= kb);
        }
        *self = StrMap { entries };
        proof {
            let after = self.entries@;
            let ka = keys_of(after);
            assert(ka =~= kb);
            assert(kb.contains(key));
            assert(kb.index_of(key) == i);
            assert forall|k: Seq<char>| #[trigger] ka.contains(k) && k != key implies after[ka.index_of(
                k,
            )].1.deep_view() == before[kb.index_of(k)].1.deep_view() by {
                let j = ka.index_of(k);
                assert(j != i);
                assert(after[j] == before[j]);
            }
            assert(self@ =~= old_view.insert(key, put));
            assert(self.values() =~= old_values.update(i as int, put));
        }
        held
    }

    /// The entries, in the order of their keys.
    pub fn into_entries(self) -> (v: Vec<(String, V)>)
        ensures
            v@.len() == self.keys().len(),
            forall|i: int|
                0 <= i < v@.len() ==> (#[trigger] v@[i]).0@ == self.keys()[i] && v@[i].1.deep_view()
                    == self.values()[i],
    {
        self.entries
    }
}

/// A strictly sorted sequence holds no key twice.
pub proof fn lemma_sorted_no_duplicates(keys: Seq<Seq<char>>)
    requires
        strictly_sorted(keys),
    ensures
        keys.no_duplicates(),
        forall|i: int| 0 <= i < keys.len() ==> keys.index_of(#[trigger] keys[i]) == i,
{
    assert forall|i: int, j: int| 0 <= i < keys.len() && 0 <= j < keys.len() && i != j implies keys[i]
        != keys[j] by {
        if i < j {
            assert(seq_lt(keys[i], keys[j]));
        } else {
            assert(seq_lt(keys[j], keys[i]));
        }
        lemma_lt_irreflexive(keys[i]);
    }
    assert forall|i: int| 0 <= i < keys.len() implies keys.index_of(#[trigger] keys[i]) == i by {
        assert(keys.contains(keys[i]));
        let j = keys.index_of(keys[i]);
        assert(keys[j] == keys[i]);
    }
}

/// A key that falls between two neighbours of a sorted sequence is not in it.
proof fn lemma_absent(keys: Seq<Seq<char>>, key: Seq<char>, at: int)
    requires
        strictly_sorted(keys),
        0 <= at <= keys.len(),
        forall|i: int| 0 <= i < at ==> seq_lt(#[trigger] keys[i], key),
        forall|i: int| at <= i < keys.len() ==> seq_lt(key, #[trigger] keys[i]),
    ensures
        !keys.contains(key),
{
    if keys.contains(key) {
        let j = keys.index_of(key);
        lemma_lt_irreflexive(key);
        if j < at {
            assert(seq_lt(keys[j], key));
        } else {
            assert(seq_lt(key, keys[j]));
        }
    }
}

} // verus!
