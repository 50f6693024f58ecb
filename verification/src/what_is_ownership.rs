//! Values that move into functions and out of them.
use vstd::prelude::*;
use vstd::string::*;
use vstd::utf8::*;

verus! {

/// Makes a string and moves it out to the caller.
pub fn gives_ownership() -> (some_string: String)
    ensures
        some_string@ == "Hello"@,
{
    let some_string = String::from_str("Hello");
    some_string
}

/// Takes a string and moves it back out, unchanged.
pub fn takes_and_gives_back(a_string: String) -> (same: String)
    ensures
        same == a_string,
{
    a_string
}

/// Takes a string and moves it back out together with its length in bytes.
pub fn calculate_length(s: String) -> (measured: (String, usize))
    ensures
        measured.0 == s,
        measured.1 == encode_utf8(s@).len(),
{
    let length = s.as_str().as_bytes().len();
    (s, length)
}

} // verus!
