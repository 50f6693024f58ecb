//! Counting how often a value occurs in a sequence.
use vstd::prelude::*;

verus! {

/// How often `value` occurs in `items`.
pub open spec fn occurrences<T>(items: Seq<T>, value: T) -> nat
    decreases items.len(),
{
    if items.len() == 0 {
        0
    } else {
        occurrences(items.drop_last(), value) + if items.last() == value {
            1nat
        } else {
            0nat
        }
    }
}

/// One more item at the end adds one occurrence of its value and none of any
/// other.
pub proof fn lemma_occurrences_push<T>(items: Seq<T>, pushed: T, value: T)
    ensures
        occurrences(items.push(pushed), value) == occurrences(items, value) + if pushed == value {
            1nat
        } else {
            0nat
        },
{
    assert(items.push(pushed).drop_last() =~= items);
}

/// No value occurs more often than there are items.
pub proof fn lemma_occurrences_bound<T>(items: Seq<T>, value: T)
    ensures
        occurrences(items, value) <= items.len(),
    decreases items.len(),
{
    if items.len() > 0 {
        lemma_occurrences_bound(items.drop_last(), value);
    }
}

} // verus!
