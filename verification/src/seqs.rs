//! Facts on sequences that the loops of this library keep using.

use vstd::prelude::*;

verus! {

/// What a sequence holds after a push: what it held, and the new item.
pub proof fn lemma_push_contains<A>(s: Seq<A>, x: A)
    ensures
        forall|y: A|
            #![trigger s.push(x).contains(y)]
            #![trigger s.contains(y)]
            s.push(x).contains(y) <==> s.contains(y) || y == x,
{
    assert forall|y: A|
        #![trigger s.push(x).contains(y)]
        #![trigger s.contains(y)]
        s.push(x).contains(y) <==> s.contains(y) || y == x by {
        if s.push(x).contains(y) {
            let i = s.push(x).index_of(y);
            assert(s.push(x)[i] == y);
            if i < s.len() {
                assert(s[i] == y);
            }
        }
        if s.contains(y) {
            let i = s.index_of(y);
            assert(s[i] == y);
            assert(s.push(x)[i] == y);
        }
        if y == x {
            assert(s.push(x)[s.len() as int] == y);
        }
    }
}

/// What the first `i + 1` items hold: what the first `i` hold, and the item
/// at `i`.
pub proof fn lemma_take_contains<A>(s: Seq<A>, i: int)
    requires
        0 <= i < s.len(),
    ensures
        s.take(i + 1) == s.take(i).push(s[i]),
        forall|y: A|
            #![trigger s.take(i + 1).contains(y)]
            #![trigger s.take(i).contains(y)]
            s.take(i + 1).contains(y) <==> s.take(i).contains(y) || y == s[i],
{
    assert(s.take(i + 1) == s.take(i).push(s[i]));
    lemma_push_contains(s.take(i), s[i]);
}

/// A sequence without duplicates stays so when an item that it does not hold
/// is pushed.
pub proof fn lemma_push_no_duplicates<A>(s: Seq<A>, x: A)
    requires
        s.no_duplicates(),
        !s.contains(x),
    ensures
        s.push(x).no_duplicates(),
{
    assert forall|i: int, j: int| 0 <= i < s.len() + 1 && 0 <= j < s.len() + 1 && i != j implies s.push(
        x,
    )[i] != s.push(x)[j] by {
        if i < s.len() && j < s.len() {
        } else if i < s.len() {
            assert(s[i] != x);
        } else {
            assert(s[j] != x);
        }
    }
}

} // verus!
