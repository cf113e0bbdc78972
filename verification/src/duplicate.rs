//! Copies whose contents are known to the verifier.

use vstd::prelude::*;
use crate::strmap::StrMap;

verus! {

/// A value that can be copied into one with the same view.
pub trait Duplicate: DeepView + Sized {
    /// A copy of `self`.
    fn duplicate(&self) -> (r: Self)
        ensures
            r.deep_view() == self.deep_view(),
    ;
}

impl Duplicate for String {
    fn duplicate(&self) -> (r: Self) {
        self.clone()
    }
}

impl Duplicate for bool {
    fn duplicate(&self) -> (r: Self) {
        *self
    }
}

impl Duplicate for i32 {
    fn duplicate(&self) -> (r: Self) {
        *self
    }
}

impl Duplicate for u64 {
    fn duplicate(&self) -> (r: Self) {
        *self
    }
}

impl Duplicate for i128 {
    fn duplicate(&self) -> (r: Self) {
        *self
    }
}

impl<T: Duplicate> Duplicate for Option<T> {
    fn duplicate(&self) -> (r: Self) {
        match self {
            Some(x) => Some(x.duplicate()),
            None => None,
        }
    }
}

impl<T: Duplicate> Duplicate for Vec<T> {
    fn duplicate(&self) -> (r: Self) {
        let mut r: Vec<T> = Vec::new();
        let mut i: usize = 0;
        while i < self.len()
            invariant
                i <= self.len(),
                r@.len() == i,
                forall|k: int| 0 <= k < i ==> r@[k].deep_view() == self@[k].deep_view(),
            decreases self.len() - i,
        {
            r.push(self[i].duplicate());
            i += 1;
        }
        assert(r.deep_view() =~= self.deep_view());
        r
    }
}

impl<T: Duplicate> Duplicate for StrMap<T> {
    fn duplicate(&self) -> (r: Self) {
        self.known_order();
        let mut r: StrMap<T> = StrMap::new();
        let mut i: usize = 0;
        while i < self.len()
            invariant
                i <= self.keys().len(),
                self.keys().len() == self.values().len(),
                self.keys().no_duplicates(),
                forall|k: Seq<char>| self@.dom().contains(k) <==> self.keys().contains(k),
                forall|j: int|
                    0 <= j < self.keys().len() ==> #[trigger] self@[self.keys()[j]]
                        == self.values()[j],
                forall|k: Seq<char>|
                    #[trigger] r@.dom().contains(k) <==> self.keys().take(i as int).contains(k),
                forall|k: Seq<char>| r@.dom().contains(k) ==> #[trigger] r@[k] == self@[k],
            decreases self.keys().len() - i,
        {
            let k = self.key_at(i).clone();
            let v = self.value_at(i).duplicate();
            let ghost before = r@;
            r.insert(k, v);
            proof {
                let keys = self.keys();
                assert(keys.take(i + 1) == keys.take(i as int).push(keys[i as int]));
                assert forall|x: Seq<char>| #[trigger] r@.dom().contains(x) <==> keys.take(
                    i + 1,
                ).contains(x) by {
                    assert(keys.take(i + 1)[i as int] == keys[i as int]);
                    if keys.take(i as int).contains(x) {
                        let j = keys.take(i as int).index_of(x);
                        assert(keys.take(i + 1)[j] == x);
                    }
                    if keys.take(i + 1).contains(x) {
                        let j = keys.take(i + 1).index_of(x);
                        if j < i {
                            assert(keys.take(i as int)[j] == x);
                        }
                    }
                }
                assert(self@[keys[i as int]] == self.values()[i as int]);
            }
            i += 1;
        }
        proof {
            assert(self.keys().take(i as int) == self.keys());
            assert(r@ =~= self@);
        }
        r
    }
}

impl<T: Duplicate> Clone for StrMap<T> {
    fn clone(&self) -> (r: Self)
        ensures
            r@ == self@,
    {
        self.duplicate()
    }
}

} // verus!
