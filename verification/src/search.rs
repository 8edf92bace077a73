//! The first element of a sequence that satisfies a predicate.

use vstd::prelude::*;

verus! {

/// The index of the first element of `s` that satisfies `pred`.
pub open spec fn first_index<A>(s: Seq<A>, pred: spec_fn(A) -> bool) -> Option<int>
    decreases s.len(),
{
    if s.len() == 0 {
        None
    } else {
        match first_index(s.drop_last(), pred) {
            Some(index) => Some(index),
            None => if pred(s.last()) {
                Some(s.len() - 1)
            } else {
                None
            },
        }
    }
}

/// [`first_index`] finds an element if there is one, and none before it satisfies the predicate.
pub proof fn lemma_first_index<A>(s: Seq<A>, pred: spec_fn(A) -> bool)
    ensures
        match first_index(s, pred) {
            Some(index) => {
                &&& 0 <= index < s.len()
                &&& pred(s[index])
                &&& forall|j: int| 0 <= j < index ==> !pred(#[trigger] s[j])
            },
            None => forall|j: int| 0 <= j < s.len() ==> !pred(#[trigger] s[j]),
        },
    decreases s.len(),
{
    if s.len() > 0 {
        let init = s.drop_last();
        lemma_first_index(init, pred);
        assert forall|j: int| 0 <= j < init.len() implies #[trigger] s[j] == init[j] by {}
        match first_index(init, pred) {
            Some(_) => {},
            None => {
                assert forall|j: int| 0 <= j < s.len() - 1 implies !pred(#[trigger] s[j]) by {
                    assert(s[j] == init[j]);
                }
            },
        }
    }
}

/// An element that satisfies the predicate, with none before it, is what [`first_index`] finds.
pub proof fn lemma_first_index_at<A>(s: Seq<A>, pred: spec_fn(A) -> bool, index: int)
    requires
        0 <= index < s.len(),
        pred(s[index]),
        forall|j: int| 0 <= j < index ==> !pred(#[trigger] s[j]),
    ensures
        first_index(s, pred) == Some(index),
{
    lemma_first_index(s, pred);
}

} // verus!
