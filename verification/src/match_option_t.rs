//! Matching on a value that may be absent, and on a few values among many.
use vstd::prelude::*;

verus! {

/// Adds one to the number inside `x`, if there is one. The number may not be
/// the largest there is.
pub fn plus_one(x: Option<i32>) -> (next: Option<i32>)
    requires
        x matches Some(i) ==> i < i32::MAX,
    ensures
        next == match x {
            None => None::<i32>,
            Some(i) => Some((i + 1) as i32),
        },
{
    match x {
        None => None,
        Some(i) => Some(i + 1),
    }
}

/// Adds one to five and to nothing: six and nothing come out.
pub fn call_plus_one() -> (results: (Option<i32>, Option<i32>))
    ensures
        results.0 == Some(6i32),
        results.1 == None::<i32>,
{
    let five = Some(5);
    let six = plus_one(five);
    let none = plus_one(None);
    (six, none)
}

/// The name of `value` where it is one of the few that have one.
pub open spec fn name_of(value: u8) -> Option<Seq<char>> {
    if value == 1 {
        Some("one"@)
    } else if value == 3 {
        Some("three"@)
    } else if value == 5 {
        Some("five"@)
    } else if value == 7 {
        Some("seven"@)
    } else {
        None
    }
}

/// Names 1, 3, 5 and 7, and lets every other value go by.
pub fn underscore_pattern(value: u8) -> (name: Option<&'static str>)
    ensures
        match name {
            Some(text) => name_of(value) == Some(text@),
            None => name_of(value) is None,
        },
{
    match value {
        1 => Some("one"),
        3 => Some("three"),
        5 => Some("five"),
        7 => Some("seven"),
        _ => None,
    }
}

} // verus!
