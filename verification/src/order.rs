//! The lexicographic order of strings, character by character.

use vstd::prelude::*;
use vstd::std_specs::iter::IteratorSpec;

verus! {

/// `a` comes strictly before `b` in the lexicographic order of characters.
pub open spec fn seq_lt(a: Seq<char>, b: Seq<char>) -> bool
    decreases a.len(),
{
    if b.len() == 0 {
        false
    } else if a.len() == 0 {
        true
    } else if a[0] != b[0] {
        a[0] < b[0]
    } else {
        seq_lt(a.drop_first(), b.drop_first())
    }
}

/// How two strings stand to each other.
#[derive(Clone, Copy, Debug, PartialEq, Eq, Structural)]
pub enum Place {
    Before,
    Same,
    After,
}

/// No string comes before itself.
pub proof fn lemma_lt_irreflexive(a: Seq<char>)
    ensures
        !seq_lt(a, a),
    decreases a.len(),
{
    if a.len() > 0 {
        lemma_lt_irreflexive(a.drop_first());
    }
}

/// The order is transitive.
pub proof fn lemma_lt_transitive(a: Seq<char>, b: Seq<char>, c: Seq<char>)
    requires
        seq_lt(a, b),
        seq_lt(b, c),
    ensures
        seq_lt(a, c),
    decreases a.len(),
{
    if a.len() > 0 && a[0] == b[0] && b[0] == c[0] {
        lemma_lt_transitive(a.drop_first(), b.drop_first(), c.drop_first());
    }
}

/// Of two different strings one comes before the other.
pub proof fn lemma_lt_total(a: Seq<char>, b: Seq<char>)
    ensures
        seq_lt(a, b) || seq_lt(b, a) || a == b,
        !(seq_lt(a, b) && seq_lt(b, a)),
    decreases a.len(),
{
    if a.len() > 0 && b.len() > 0 && a[0] == b[0] {
        lemma_lt_total(a.drop_first(), b.drop_first());
        if a.drop_first() == b.drop_first() {
            assert(a == seq![a[0]] + a.drop_first());
            assert(b == seq![b[0]] + b.drop_first());
        }
    } else if a.len() == 0 && b.len() == 0 {
        assert(a == b);
    }
}

/// Dropping a common prefix does not change the order.
pub proof fn lemma_lt_skip(a: Seq<char>, b: Seq<char>, k: int)
    requires
        0 <= k <= a.len(),
        k <= b.len(),
        a.take(k) == b.take(k),
    ensures
        seq_lt(a, b) == seq_lt(a.skip(k), b.skip(k)),
    decreases k,
{
    if k > 0 {
        assert(a[0] == a.take(k)[0]);
        assert(b[0] == b.take(k)[0]);
        let a1 = a.drop_first();
        let b1 = b.drop_first();
        assert(a1.take(k - 1) == a.take(k).drop_first());
        assert(b1.take(k - 1) == b.take(k).drop_first());
        lemma_lt_skip(a1, b1, k - 1);
        assert(a1.skip(k - 1) == a.skip(k));
        assert(b1.skip(k - 1) == b.skip(k));
    } else {
        assert(a.skip(0) == a);
        assert(b.skip(0) == b);
    }
}

/// Where the string `a` stands with respect to the string `b`.
pub fn str_place(a: &str, b: &str) -> (r: Place)
    ensures
        r == Place::Before <==> seq_lt(a@, b@),
        r == Place::Same <==> a@ == b@,
        r == Place::After <==> seq_lt(b@, a@),
{
    let mut ia = a.chars();
    let mut ib = b.chars();
    let ghost mut i: int = 0;
    proof {
        lemma_lt_total(a@, b@);
        assert(a@.skip(0) == a@);
        assert(b@.skip(0) == b@);
    }
    loop
        invariant
            0 <= i <= a@.len(),
            i <= b@.len(),
            a@.take(i) == b@.take(i),
            ia.remaining() == a@.skip(i),
            ib.remaining() == b@.skip(i),
            ia.obeys_prophetic_iter_laws(),
            ib.obeys_prophetic_iter_laws(),
        decreases a@.len() - i,
    {
        let ca = ia.next();
        let cb = ib.next();
        proof {
            lemma_lt_skip(a@, b@, i);
            lemma_lt_skip(b@, a@, i);
            lemma_lt_total(a@, b@);
        }
        match (ca, cb) {
            (None, None) => {
                proof {
                    assert(a@.take(i) == a@);
                    assert(b@.take(i) == b@);
                }
                return Place::Same;
            },
            (None, Some(_)) => {
                return Place::Before;
            },
            (Some(_), None) => {
                return Place::After;
            },
            (Some(x), Some(y)) => {
                assert(a@.skip(i)[0] == a@[i]);
                assert(b@.skip(i)[0] == b@[i]);
                if x != y {
                    if x < y {
                        return Place::Before;
                    } else {
                        return Place::After;
                    }
                }
                proof {
                    assert(a@.take(i + 1) == a@.take(i).push(a@[i]));
                    assert(b@.take(i + 1) == b@.take(i).push(b@[i]));
                    assert(a@.skip(i).drop_first() == a@.skip(i + 1));
                    assert(b@.skip(i).drop_first() == b@.skip(i + 1));
                    i = i + 1;
                }
            },
        }
    }
}

} // verus!
