//! Functions that hand a value back.
use vstd::prelude::*;

verus! {

/// The value of a block is the value of its last expression: here, one more
/// than the 3 that the block binds, whatever the name means outside of it.
pub fn expressions() -> (y: i32)
    ensures
        y == 4,
{
    let _x: i32 = 5;
    let y: i32 = {
        let x: i32 = 3;
        x + 1
    };
    y
}

/// A function whose body is the value it returns.
pub fn functions_with_return_values() -> (five: i32)
    ensures
        five == 5,
{
    5
}

} // verus!
