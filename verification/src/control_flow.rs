//! Branches and loops.
use vstd::prelude::*;

verus! {

/// Numbers below this make the condition of [`if_expressions`] true.
pub const THRESHOLD: i32 = 5;

/// Says whether `number` is below [`THRESHOLD`].
pub fn if_expressions(number: i32) -> (message: &'static str)
    ensures
        message@ == if number < THRESHOLD {
            "condition was true"@
        } else {
            "condition was false"@
        },
{
    if number < THRESHOLD {
        "condition was true"
    } else {
        "condition was false"
    }
}

/// What [`multiple_conditions`] says of `number`: the first of 4, 3 and 2
/// that divides it, or that none does.
pub open spec fn divisibility(number: int) -> Seq<char> {
    if number % 4 == 0 {
        "number is divisible by 4"@
    } else if number % 3 == 0 {
        "number is divisible by 3"@
    } else if number % 2 == 0 {
        "number is divisible by 2"@
    } else {
        "number is not divisible by 4, 3, or 2"@
    }
}

/// Names the first of 4, 3 and 2 that divides `number`.
pub fn multiple_conditions(number: i32) -> (message: &'static str)
    ensures
        message@ == divisibility(number as int),
{
    if number % 4 == 0 {
        "number is divisible by 4"
    } else if number % 3 == 0 {
        "number is divisible by 3"
    } else if number % 2 == 0 {
        "number is divisible by 2"
    } else {
        "number is not divisible by 4, 3, or 2"
    }
}

/// Binds a number to the outcome of an `if`: 5 when `condition` holds, else 6.
pub fn using_if_in_a_let_statement(condition: bool) -> (number: i32)
    ensures
        number == if condition {
            5int
        } else {
            6int
        },
{
    let number: i32 = if condition {
        5
    } else {
        6
    };
    number
}

/// Counts up to `limit` in a `loop`, and leaves the loop with twice the count.
pub fn return_values_from_loops(limit: u32) -> (result: u32)
    requires
        1 <= limit,
        2 * limit <= u32::MAX,
    ensures
        result == 2 * limit,
{
    let mut counter: u32 = 0;
    let mut result: u32 = 0;
    loop
        invariant_except_break
            counter < limit,
        invariant
            2 * limit <= u32::MAX,
        ensures
            result == 2 * limit,
        decreases limit - counter,
    {
        counter += 1;
        if counter == limit {
            result = counter * 2;
            break;
        }
    }
    result
}

/// The numbers from `number` down to 1.
pub open spec fn countdown(number: u32) -> Seq<u32> {
    Seq::new(number as nat, |i: int| (number - i) as u32)
}

/// Counts down from `number` with a `while` loop: the numbers that are called
/// out before lift-off, in that order.
pub fn conditional_while_loops(number: u32) -> (called: Vec<u32>)
    ensures
        called@ == countdown(number),
{
    let mut called: Vec<u32> = Vec::new();
    let mut current: u32 = number;
    while current != 0
        invariant
            current <= number,
            called@.len() == number - current,
            forall|i: int| 0 <= i < called@.len() ==> called@[i] == number - i,
        decreases current,
    {
        called.push(current);
        current -= 1;
    }
    proof {
        assert(called@ =~= countdown(number));
    }
    called
}

/// The numbers of `start..end`, last first.
pub open spec fn reversed_range(start: u32, end: u32) -> Seq<u32> {
    Seq::new(
        if end >= start {
            (end - start) as nat
        } else {
            0nat
        },
        |i: int| (end - 1 - i) as u32,
    )
}

/// Goes through the range `start..end` in reverse: the numbers that are
/// called out before lift-off, in that order.
pub fn looping_range_with_for(start: u32, end: u32) -> (called: Vec<u32>)
    ensures
        called@ == reversed_range(start, end),
{
    let mut called: Vec<u32> = Vec::new();
    let mut number: u32 = end;
    while number > start
        invariant
            start <= end ==> start <= number <= end,
            start > end ==> number == end,
            called@.len() == end - number,
            forall|i: int| 0 <= i < called@.len() ==> called@[i] == end - 1 - i,
        decreases number,
    {
        number -= 1;
        called.push(number);
    }
    proof {
        assert(called@ =~= reversed_range(start, end));
    }
    called
}

} // verus!
