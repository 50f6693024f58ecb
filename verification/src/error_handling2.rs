//! A guess that is known to lie between 1 and 100.
use vstd::prelude::*;

verus! {

/// The smallest number a [`Guess`] can hold.
pub const GUESS_MIN: i32 = 1;

/// The largest number a [`Guess`] can hold.
pub const GUESS_MAX: i32 = 100;

/// A number between [`GUESS_MIN`] and [`GUESS_MAX`], both included.
///
/// The field is private, so every `Guess` was made by [`Guess::new`] and its
/// number is in range wherever one is held.
pub struct Guess {
    value: i32,
}

impl View for Guess {
    type V = int;

    closed spec fn view(&self) -> int {
        self.value as int
    }
}

impl Guess {
    #[verifier::type_invariant]
    spec fn in_range(self) -> bool {
        GUESS_MIN <= self.value <= GUESS_MAX
    }

    /// Makes a guess of `value`, which has to be in range.
    pub fn new(value: i32) -> (guess: Guess)
        requires
            GUESS_MIN <= value <= GUESS_MAX,
        ensures
            guess@ == value,
    {
        Guess { value }
    }

    /// The number guessed.
    pub fn value(&self) -> (value: i32)
        ensures
            value == self@,
            GUESS_MIN <= value <= GUESS_MAX,
    {
        proof {
            use_type_invariant(self);
        }
        self.value
    }
}

} // verus!
