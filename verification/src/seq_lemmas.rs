//! Facts about sequences that several proofs use.

use vstd::prelude::*;

verus! {

/// A filter that every item passes leaves the sequence as it is.
pub proof fn lemma_filter_keeps_all<A>(items: Seq<A>, test: spec_fn(A) -> bool)
    requires
        forall|i: int| 0 <= i < items.len() ==> test(#[trigger] items[i]),
    ensures
        items.filter(test) == items,
    decreases items.len(),
{
    reveal(Seq::filter);
    if items.len() > 0 {
        lemma_filter_keeps_all(items.drop_last(), test);
        assert(items.drop_last().push(items.last()) =~= items);
    }
}

} // verus!
