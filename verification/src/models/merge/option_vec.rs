//! Strategies for optional list fields.

use vstd::prelude::*;

verus! {

/// What `append_some` leaves, over the views: the base followed by the overlay
/// where both are present, else the side that is present.
pub open spec fn appended<A>(base: Option<Seq<A>>, overlay: Option<Seq<A>>) -> Option<Seq<A>> {
    match (base, overlay) {
        (Some(b), Some(o)) => Some(b + o),
        (None, Some(o)) => Some(o),
        (b, None) => b,
    }
}

/// Appends the contents of `right` to `left` if both are `Some`; takes `right`
/// if `left` is `None` and `right` is `Some`.
pub fn append_some<T: DeepView>(left: &mut Option<Vec<T>>, right: Option<Vec<T>>)
    ensures
        final(left).deep_view() == appended(old(left).deep_view(), right.deep_view()),
{
    if let Some(new) = right {
        let taken = left.take();
        match taken {
            Some(mut base) => {
                crate::models::merge::vec::append(&mut base, new);
                *left = Some(base);
            },
            None => {
                *left = Some(new);
            },
        }
    }
}

/// Appending optional lists is associative.
pub proof fn lemma_append_some_associative<A>(
    a: Option<Seq<A>>,
    b: Option<Seq<A>>,
    c: Option<Seq<A>>,
)
    ensures
        appended(appended(a, b), c) == appended(a, appended(b, c)),
{
    if a is Some && b is Some && c is Some {
        assert((a->0 + b->0) + c->0 =~= a->0 + (b->0 + c->0));
    }
}

} // verus!
