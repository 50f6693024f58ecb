//! Finding the largest number of a list, once and for all lists.
use vstd::prelude::*;

verus! {

/// `value` is an item of `list`, and no item of `list` is larger.
pub open spec fn is_largest(list: Seq<i32>, value: i32) -> bool {
    &&& list.contains(value)
    &&& forall|i: int| 0 <= i < list.len() ==> list[i] <= value
}

/// The largest number of a list that is not empty.
pub fn largest(list: &[i32]) -> (largest: &i32)
    requires
        list@.len() > 0,
    ensures
        is_largest(list@, *largest),
{
    let mut largest = &list[0];
    let mut i: usize = 0;
    while i < list.len()
        invariant
            i <= list@.len(),
            list@.contains(*largest),
            forall|j: int| 0 <= j < i ==> list@[j] <= *largest,
        decreases list@.len() - i,
    {
        let item = &list[i];
        if *item > *largest {
            largest = item;
        }
        i += 1;
    }
    largest
}

/// The largest number of a list that is not empty, found by going through the
/// list itself.
pub fn find_largest_number_in_list(number_list: Vec<i32>) -> (largest: i32)
    requires
        number_list@.len() > 0,
    ensures
        is_largest(number_list@, largest),
{
    let mut largest = number_list[0];
    let mut i: usize = 0;
    while i < number_list.len()
        invariant
            i <= number_list@.len(),
            number_list@.contains(largest),
            forall|j: int| 0 <= j < i ==> number_list@[j] <= largest,
        decreases number_list@.len() - i,
    {
        let number = number_list[i];
        if number > largest {
            largest = number;
        }
        i += 1;
    }
    largest
}

/// The largest number of each of two lists that are not empty, found by going
/// through one list and then, in the same way, through the other.
pub fn find_larget_number_2_lists(first_list: Vec<i32>, second_list: Vec<i32>) -> (largest: (
    i32,
    i32,
))
    requires
        first_list@.len() > 0,
        second_list@.len() > 0,
    ensures
        is_largest(first_list@, largest.0),
        is_largest(second_list@, largest.1),
{
    let number_list = first_list;
    let mut largest = number_list[0];
    let mut i: usize = 0;
    while i < number_list.len()
        invariant
            i <= number_list@.len(),
            number_list@.contains(largest),
            forall|j: int| 0 <= j < i ==> number_list@[j] <= largest,
        decreases number_list@.len() - i,
    {
        let number = number_list[i];
        if number > largest {
            largest = number;
        }
        i += 1;
    }
    let first_largest = largest;

    let number_list = second_list;
    let mut largest = number_list[0];
    let mut i: usize = 0;
    while i < number_list.len()
        invariant
            i <= number_list@.len(),
            number_list@.contains(largest),
            forall|j: int| 0 <= j < i ==> number_list@[j] <= largest,
        decreases number_list@.len() - i,
    {
        let number = number_list[i];
        if number > largest {
            largest = number;
        }
        i += 1;
    }
    (first_largest, largest)
}

} // verus!
