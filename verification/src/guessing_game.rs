//! The rules of a game: guess the secret number.
//!
//! The secret is a whole number from 1 to 100. A player types a line; a line
//! that is not a number is passed over, and a number is answered with a hint
//! or with the news that it is the secret. Reading lines and showing answers
//! is left to the caller.
use crate::decimal::{parse_number, typed_number};
use rand::Rng;
use std::cmp::Ordering;
use vstd::prelude::*;
use vstd::string::*;

verus! {

/// The smallest number that the secret can be.
pub const SECRET_MIN: u32 = 1;

/// The largest number that the secret can be.
pub const SECRET_MAX: u32 = 100;

/// Draws a number with `Rng::gen_range` of the `rand` crate, on the generator
/// that `rand::thread_rng` returns. This function is not verified: its
/// contract is taken on trust. It claims one thing of the number drawn, that
/// it is at least `low` and below `high`. It claims nothing of how the numbers
/// are spread, and two draws need not agree. `gen_range` panics unless `low`
/// is below `high`, which the precondition rules out. `thread_rng` panics if
/// the system cannot seed the generator, which no argument can rule out.
#[verifier::external_body]
fn random_in_range(low: u32, high: u32) -> (number: u32)
    requires
        low < high,
    ensures
        low <= number < high,
{
    rand::thread_rng().gen_range(low, high)
}

/// Draws the secret number of a new game, at random.
pub fn secret_number() -> (secret: u32)
    ensures
        SECRET_MIN <= secret <= SECRET_MAX,
{
    random_in_range(SECRET_MIN, SECRET_MAX + 1)
}

/// How a guess compares with the secret.
#[derive(Debug, Clone, Copy, PartialEq, Eq, Structural)]
pub enum Verdict {
    TooSmall,
    TooBig,
    Win,
}

/// The verdict on `guess` when the secret is `secret_number`.
pub open spec fn verdict_of(guess: u32, secret_number: u32) -> Verdict {
    if guess < secret_number {
        Verdict::TooSmall
    } else if guess > secret_number {
        Verdict::TooBig
    } else {
        Verdict::Win
    }
}

/// Compares `guess` with the secret.
pub fn judge(guess: u32, secret_number: u32) -> (verdict: Verdict)
    ensures
        verdict == verdict_of(guess, secret_number),
{
    match guess.cmp(&secret_number) {
        Ordering::Less => Verdict::TooSmall,
        Ordering::Greater => Verdict::TooBig,
        Ordering::Equal => Verdict::Win,
    }
}

impl Verdict {
    /// What to tell the player.
    pub fn message(&self) -> (text: &'static str)
        ensures
            text@ == match *self {
                Verdict::TooSmall => "Too small!"@,
                Verdict::TooBig => "Too big!"@,
                Verdict::Win => "You win!"@,
            },
    {
        match self {
            Verdict::TooSmall => "Too small!",
            Verdict::TooBig => "Too big!",
            Verdict::Win => "You win!",
        }
    }

    /// Whether the game is over.
    pub fn ends_game(&self) -> (over: bool)
        ensures
            over == (*self == Verdict::Win),
    {
        match self {
            Verdict::Win => true,
            _ => false,
        }
    }
}

/// What becomes of a line that the player typed.
#[derive(Debug, Clone, Copy, PartialEq, Eq, Structural)]
pub enum Turn {
    /// The line held no number: it is passed over without a word.
    Skipped,
    /// The line held `guess`, and `verdict` is the answer to it.
    Guessed { guess: u32, verdict: Verdict },
}

/// The turn that `line` makes when the secret is `secret_number`.
pub open spec fn turn_of(secret_number: u32, line: Seq<char>) -> Turn {
    match typed_number(line) {
        Some(guess) => Turn::Guessed { guess, verdict: verdict_of(guess, secret_number) },
        None => Turn::Skipped,
    }
}

/// Plays one turn: reads the player's guess from `line` and judges it.
pub fn take_turn(secret_number: u32, line: &str) -> (turn: Turn)
    ensures
        turn == turn_of(secret_number, line@),
{
    match parse_number(line) {
        Some(guess) => Turn::Guessed { guess, verdict: judge(guess, secret_number) },
        None => Turn::Skipped,
    }
}

} // verus!
