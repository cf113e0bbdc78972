//! Strategies for list fields.

use vstd::prelude::*;

verus! {

/// Moves the items of `right` to the end of `left`, in their order.
pub fn append<T: DeepView>(left: &mut Vec<T>, right: Vec<T>)
    ensures
        final(left)@ == old(left)@ + right@,
        final(left).deep_view() == old(left).deep_view() + right.deep_view(),
{
    let mut moved = right;
    let ghost added = moved;
    left.append(&mut moved);
    assert(left.deep_view() =~= old(left).deep_view() + added.deep_view());
}

/// Appending is associative.
pub proof fn lemma_append_associative<A>(a: Seq<A>, b: Seq<A>, c: Seq<A>)
    ensures
        (a + b) + c == a + (b + c),
{
    assert((a + b) + c =~= a + (b + c));
}

} // verus!
