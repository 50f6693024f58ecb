//! Coins and what they are worth.
use vstd::prelude::*;

verus! {

/// A coin.
#[derive(Debug, Clone, Copy, PartialEq, Eq, Structural)]
pub enum Coin {
    Penny,
    Nickel,
    Dime,
    Quarter,
}

/// A state of the union that mints quarters of its own.
#[derive(Debug, Clone, Copy, PartialEq, Eq, Structural)]
pub enum UsState {
    Alabama,
    Alaska,
}

/// A coin. A quarter bears the state that minted it.
#[derive(Debug, Clone, Copy, PartialEq, Eq, Structural)]
pub enum Coin2 {
    Penny,
    Nickel,
    Dime,
    Quarter(UsState),
}

impl Coin {
    /// What the coin is worth, in cents.
    pub open spec fn cents(self) -> int {
        match self {
            Coin::Penny => 1,
            Coin::Nickel => 5,
            Coin::Dime => 10,
            Coin::Quarter => 25,
        }
    }

    /// Whether the coin is the one that brings luck: the penny.
    pub open spec fn lucky(self) -> bool {
        self == Coin::Penny
    }
}

impl Coin2 {
    /// What the coin is worth, in cents. The state on a quarter does not
    /// change its worth.
    pub open spec fn cents(self) -> int {
        match self {
            Coin2::Penny => 1,
            Coin2::Nickel => 5,
            Coin2::Dime => 10,
            Coin2::Quarter(_) => 25,
        }
    }

    /// The state to announce for the coin: the one a quarter bears.
    pub open spec fn minted_by(self) -> Option<UsState> {
        match self {
            Coin2::Quarter(state) => Some(state),
            _ => None,
        }
    }
}

/// The worth of `coin` in cents.
pub fn value_in_cents(coin: Coin) -> (cents: u8)
    ensures
        cents == coin.cents(),
{
    match coin {
        Coin::Penny => 1,
        Coin::Nickel => 5,
        Coin::Dime => 10,
        Coin::Quarter => 25,
    }
}

/// The worth of `coin` in cents, and whether it is a lucky penny, which is
/// worth a remark.
pub fn value_in_cents2(coin: Coin) -> (valued: (u8, bool))
    ensures
        valued.0 == coin.cents(),
        valued.1 == coin.lucky(),
{
    match coin {
        Coin::Penny => { (1, true) },
        Coin::Nickel => (5, false),
        Coin::Dime => (10, false),
        Coin::Quarter => (25, false),
    }
}

/// The worth of `coin` in cents, and the state to announce if it is a
/// quarter.
pub fn value_in_cents_state_quarter_added(coin: Coin2) -> (valued: (u8, Option<UsState>))
    ensures
        valued.0 == coin.cents(),
        valued.1 == coin.minted_by(),
{
    match coin {
        Coin2::Penny => (1, None),
        Coin2::Nickel => (5, None),
        Coin2::Dime => (10, None),
        Coin2::Quarter(state) => { (25, Some(state)) },
    }
}

} // verus!
