//! Counting in sequences of events and actions.

use vstd::prelude::*;

verus! {

/// How often `item` occurs in `items`.
pub open spec fn occurrences<A>(items: Seq<A>, item: A) -> nat
    decreases items.len(),
{
    if items.len() == 0 {
        0
    } else {
        occurrences(items.drop_last(), item) + if items.last() == item {
            1nat
        } else {
            0nat
        }
    }
}

/// Appending one element adds one occurrence of that element and none of any
/// other.
pub proof fn lemma_occurrences_push<A>(items: Seq<A>, last: A, item: A)
    ensures
        occurrences(items.push(last), item) == occurrences(items, item) + if last == item {
            1nat
        } else {
            0nat
        },
{
    assert(items.push(last).drop_last() =~= items);
}

/// The occurrences in a concatenation are those of its two parts together.
pub proof fn lemma_occurrences_concat<A>(front: Seq<A>, back: Seq<A>, item: A)
    ensures
        occurrences(front + back, item) == occurrences(front, item) + occurrences(back, item),
    decreases back.len(),
{
    if back.len() == 0 {
        assert(front + back =~= front);
    } else {
        assert((front + back).drop_last() =~= front + back.drop_last());
        lemma_occurrences_concat(front, back.drop_last(), item);
    }
}

} // verus!
