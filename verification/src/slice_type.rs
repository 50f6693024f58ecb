//! The first word of a text: what comes before its first space.
use crate::text::{find_head_end, head, head_of, lemma_head_of_bytes};
use vstd::prelude::*;
use vstd::string::*;
use vstd::utf8::*;

verus! {

/// The byte that ends a word: a space.
pub const SPACE: u8 = 32;

/// The first word of `text`: what comes before its first space, or all of it
/// if it holds none.
pub open spec fn first_word_of(text: Seq<char>) -> Seq<char> {
    head_of(text, ' ')
}

/// The place, in bytes, where the first word of `s` ends: that of the first
/// space, or the length of `s` if it holds none.
pub fn first_word(s: &String) -> (end: usize)
    ensures
        end == encode_utf8(first_word_of(s@)).len(),
{
    let bytes = s.as_str().as_bytes();
    proof {
        lemma_head_of_bytes(s@, SPACE);
        crate::text::lemma_head_end(encode_utf8(s@), SPACE);
    }
    find_head_end(bytes, SPACE)
}

/// The first word of `s`, as a slice of it: all of `s` if it holds no space.
pub fn first_word_rewrite(s: &String) -> (word: &str)
    ensures
        word@ == first_word_of(s@),
{
    head(s.as_str(), SPACE)
}

/// The first word of `s`, as a slice of it: all of `s` if it holds no space.
/// This one takes a slice, and so serves whole strings and literals too.
pub fn first_word_rewrite2(s: &str) -> (word: &str)
    ensures
        word@ == first_word_of(s@),
{
    head(s, SPACE)
}

/// Takes the first word of a string and of a literal, to show that one
/// function serves both: of the whole string as a slice, of the whole literal
/// as a slice, and of the literal as it is.
pub fn call_string_sices_as_parameters<'a, 'b>(
    my_string: &'a String,
    my_string_literal: &'b str,
) -> (words: (&'a str, &'b str, &'b str))
    ensures
        words.0@ == first_word_of(my_string@),
        words.1@ == first_word_of(my_string_literal@),
        words.2@ == first_word_of(my_string_literal@),
{
    let of_string = first_word_rewrite2(my_string.as_str());
    let of_literal_slice = first_word_rewrite2(my_string_literal);
    let of_literal = first_word_rewrite2(my_string_literal);
    (of_string, of_literal_slice, of_literal)
}

} // verus!
