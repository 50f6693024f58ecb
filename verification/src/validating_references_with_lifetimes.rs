//! References that live as long as what they were taken from.
use crate::text::{head, head_of};
use vstd::prelude::*;
use vstd::string::*;
use vstd::utf8::*;

verus! {

/// The byte that ends a sentence: a full stop.
pub const FULL_STOP: u8 = 46;

/// The longer of `x` and `y`, by their length in bytes; `y` if they are as
/// long as each other.
pub fn longest<'a>(x: &'a str, y: &'a str) -> (longer: &'a str)
    ensures
        longer == if encode_utf8(x@).len() > encode_utf8(y@).len() {
            x
        } else {
            y
        },
{
    if x.as_bytes().len() > y.as_bytes().len() {
        x
    } else {
        y
    }
}

/// Always the first of the two, so that only its lifetime matters.
#[allow(unused_variables)]
pub fn longest2<'a>(x: &'a str, y: &str) -> (first: &'a str)
    ensures
        first == x,
{
    x
}

/// A part of a text, held by reference: it cannot outlive the text.
#[derive(Debug)]
pub struct ImportantExcert<'a> {
    pub part: &'a str,
}

/// The first sentence of `novel`, held as an excerpt: what comes before the
/// first full stop, or all of `novel` if it holds none.
pub fn use_important_excerpt<'a>(novel: &'a str) -> (excerpt: ImportantExcert<'a>)
    ensures
        excerpt.part@ == head_of(novel@, '.'),
{
    let first_sentence = head(novel, FULL_STOP);
    ImportantExcert { part: first_sentence }
}

} // verus!
