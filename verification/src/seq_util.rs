//! Facts about searching sequences.

use vstd::prelude::*;

verus! {

/// Some element satisfies `pred`.
pub open spec fn any_match<A>(s: Seq<A>, pred: spec_fn(A) -> bool) -> bool {
    exists|i: int| 0 <= i < s.len() && pred(#[trigger] s[i])
}

/// The position of the first element that satisfies `pred` (meaningful when
/// `any_match`).
pub open spec fn first_match<A>(s: Seq<A>, pred: spec_fn(A) -> bool) -> int {
    choose|i: int|
        0 <= i < s.len() && pred(#[trigger] s[i]) && forall|j: int| 0 <= j < i ==> !pred(s[j])
}

/// A position whose element satisfies `pred` while none before it does is the
/// first match.
pub proof fn lemma_first_match<A>(s: Seq<A>, pred: spec_fn(A) -> bool, i: int)
    requires
        0 <= i < s.len(),
        pred(s[i]),
        forall|j: int| 0 <= j < i ==> !pred(s[j]),
    ensures
        first_match(s, pred) == i,
        any_match(s, pred),
{
    assert(pred(s[i]));
    let k = first_match(s, pred);
    if k < i {
        assert(!pred(s[k]));
    } else if k > i {
        assert(!pred(s[i]));
    }
}

} // verus!
