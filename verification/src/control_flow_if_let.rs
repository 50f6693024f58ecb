//! Matching one pattern and letting the rest go.
use vstd::prelude::*;

verus! {

/// A state of the union that mints quarters of its own.
#[derive(Debug, Clone, Copy, PartialEq, Eq, Structural)]
pub enum UsState {
    Alabama,
    Alaska,
}

/// A coin. A quarter bears the state that minted it.
#[derive(Debug, Clone, Copy, PartialEq, Eq, Structural)]
pub enum Coin {
    Penny,
    Nickel,
    Dime,
    Quarter(UsState),
}

/// The value that [`if_let`] looks for.
pub const THREE: u8 = 3;

/// Whether `some_u8_value` holds a three, which is the one case worth
/// announcing.
pub fn if_let(some_u8_value: Option<u8>) -> (is_three: bool)
    ensures
        is_three == (some_u8_value == Some(THREE)),
{
    if let Some(3) = some_u8_value {
        true
    } else {
        false
    }
}

/// The state to announce for `coin`: the one a quarter bears, and none for
/// any other coin.
pub open spec fn announced(coin: Coin) -> Option<UsState> {
    match coin {
        Coin::Quarter(state) => Some(state),
        _ => None,
    }
}

/// The number of coins that are not quarters once `coin` is counted in,
/// `count` of them having been seen before.
pub open spec fn counted(coin: Coin, count: u32) -> int {
    match coin {
        Coin::Quarter(_) => count as int,
        _ => count + 1,
    }
}

/// Sorts `coin` with a `match`: a quarter's state is handed out to be
/// announced, and any other coin is counted.
pub fn match_quarters(coin: Coin, count: u32) -> (sorted: (Option<UsState>, u32))
    requires
        counted(coin, count) <= u32::MAX,
    ensures
        sorted.0 == announced(coin),
        sorted.1 == counted(coin, count),
{
    let mut count = count;
    let mut state_quarter: Option<UsState> = None;
    match coin {
        Coin::Quarter(state) => state_quarter = Some(state),
        _ => count += 1,
    }
    (state_quarter, count)
}

/// Sorts `coin` as [`match_quarters`] does, with `if let` and `else`.
pub fn if_let_else_quarters(coin: Coin, count: u32) -> (sorted: (Option<UsState>, u32))
    requires
        counted(coin, count) <= u32::MAX,
    ensures
        sorted.0 == announced(coin),
        sorted.1 == counted(coin, count),
{
    let mut count = count;
    let mut state_quarter: Option<UsState> = None;
    if let Coin::Quarter(state) = coin {
        state_quarter = Some(state);
    } else {
        count += 1;
    }
    (state_quarter, count)
}

} // verus!
