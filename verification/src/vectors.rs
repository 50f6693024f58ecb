//! Reading and changing the items of a vector.
use vstd::prelude::*;

verus! {

/// The place of the item that [`reading_elements_of_vectors`] reads: the third.
pub const THIRD: usize = 2;

/// What [`iterate_through_mut_vector`] adds to every item.
pub const RAISE: i32 = 50;

/// Reads the third item of `v` in the way that cannot fail: a vector too
/// short to have one gives `None`.
pub fn reading_elements_of_vectors(v: &Vec<i32>) -> (third: Option<&i32>)
    ensures
        third == if v@.len() > THIRD {
            Some(&v@[THIRD as int])
        } else {
            None
        },
{
    if v.len() > THIRD {
        Some(&v[THIRD])
    } else {
        None
    }
}

/// Goes through `v` and adds [`RAISE`] to every item in place. Each item has
/// to leave room for that.
pub fn iterate_through_mut_vector(v: &mut Vec<i32>)
    requires
        forall|i: int| 0 <= i < old(v)@.len() ==> old(v)@[i] + RAISE <= i32::MAX,
    ensures
        final(v)@.len() == old(v)@.len(),
        forall|i: int| 0 <= i < old(v)@.len() ==> final(v)@[i] == old(v)@[i] + RAISE,
{
    let mut i: usize = 0;
    while i < v.len()
        invariant
            i <= v@.len(),
            v@.len() == old(v)@.len(),
            forall|j: int| 0 <= j < old(v)@.len() ==> old(v)@[j] + RAISE <= i32::MAX,
            forall|j: int| 0 <= j < i ==> v@[j] == old(v)@[j] + RAISE,
            forall|j: int| i <= j < v@.len() ==> v@[j] == old(v)@[j],
        decreases v@.len() - i,
    {
        v[i] += RAISE;
        i += 1;
    }
}

} // verus!
