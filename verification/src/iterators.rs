//! Going through a list and making a new one from it.
use vstd::prelude::*;

verus! {

/// Makes the list that holds, in the same order, each number of `v1` plus
/// one. No number of `v1` may be the largest there is.
pub fn iterator_adaptor_with_consumer(v1: &Vec<i32>) -> (v2: Vec<i32>)
    requires
        forall|i: int| 0 <= i < v1@.len() ==> v1@[i] < i32::MAX,
    ensures
        v2@.len() == v1@.len(),
        forall|i: int| 0 <= i < v1@.len() ==> v2@[i] == v1@[i] + 1,
{
    let mut v2: Vec<i32> = Vec::new();
    let mut i: usize = 0;
    while i < v1.len()
        invariant
            i <= v1@.len(),
            v2@.len() == i,
            forall|j: int| 0 <= j < v1@.len() ==> v1@[j] < i32::MAX,
            forall|j: int| 0 <= j < i ==> v2@[j] == v1@[j] + 1,
        decreases v1@.len() - i,
    {
        v2.push(v1[i] + 1);
        i += 1;
    }
    v2
}

} // verus!
