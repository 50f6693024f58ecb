//! Lists of numbers and of characters, and points of any coordinate type.
use vstd::prelude::*;

verus! {

/// `value` is an item of `list`, and no item of `list` is larger.
pub open spec fn is_largest_i32(list: Seq<i32>, value: i32) -> bool {
    &&& list.contains(value)
    &&& forall|i: int| 0 <= i < list.len() ==> list[i] <= value
}

/// `value` is an item of `list`, and no item of `list` comes after it in the
/// order of characters.
pub open spec fn is_largest_char(list: Seq<char>, value: char) -> bool {
    &&& list.contains(value)
    &&& forall|i: int| 0 <= i < list.len() ==> list[i] <= value
}

/// The largest number of a list that is not empty.
pub fn largest_i32(list: &[i32]) -> (largest: &i32)
    requires
        list@.len() > 0,
    ensures
        is_largest_i32(list@, *largest),
{
    let mut largest = &list[0];
    let mut i: usize = 0;
    while i < list.len()
        invariant
            i <= list@.len(),
            list@.contains(*largest),
            forall|j: int| 0 <= j < i ==> list@[j] <= *largest,
        decreases list@.len() - i,
    {
        let item = &list[i];
        if *item > *largest {
            largest = item;
        }
        i += 1;
    }
    largest
}

/// The largest character of a list that is not empty.
pub fn largest_char(list: &[char]) -> (largest: &char)
    requires
        list@.len() > 0,
    ensures
        is_largest_char(list@, *largest),
{
    let mut largest = &list[0];
    let mut i: usize = 0;
    while i < list.len()
        invariant
            i <= list@.len(),
            list@.contains(*largest),
            forall|j: int| 0 <= j < i ==> list@[j] <= *largest,
        decreases list@.len() - i,
    {
        let item = &list[i];
        if *item > *largest {
            largest = item;
        }
        i += 1;
    }
    largest
}

/// A point whose coordinates are of one type.
pub struct Point<T> {
    pub x: T,
    pub y: T,
}

/// A point whose coordinates may be of two types.
pub struct PointMultipleTypeParameters<T, U> {
    pub x: T,
    pub y: U,
}

impl<T> Point<T> {
    /// The first coordinate.
    pub fn x(&self) -> (x: &T)
        ensures
            *x == self.x,
    {
        &self.x
    }
}

impl<T, U> PointMultipleTypeParameters<T, U> {
    /// The point with the first coordinate of this one and the second of
    /// `other`.
    pub fn mixup<V, W>(self, other: PointMultipleTypeParameters<V, W>) -> (mixed:
        PointMultipleTypeParameters<T, W>)
        ensures
            mixed.x == self.x,
            mixed.y == other.y,
    {
        PointMultipleTypeParameters { x: self.x, y: other.y }
    }
}

} // verus!
