//! Cutting a text at the first occurrence of a delimiter.
//!
//! Texts are UTF-8. A byte below 128 is a character by itself and never part
//! of a longer one, so for such a delimiter the search can go through the
//! bytes, and the cut it finds falls between two characters.
use vstd::prelude::*;
use vstd::string::*;
use vstd::utf8::*;

verus! {

/// Where the part of `bytes` before the first `delimiter` ends: the place of
/// that delimiter, or the length of `bytes` if they hold none.
pub open spec fn head_end(bytes: Seq<u8>, delimiter: u8) -> int
    decreases bytes.len(),
{
    if bytes.len() == 0 || bytes[0] == delimiter {
        0
    } else {
        1 + head_end(bytes.drop_first(), delimiter)
    }
}

/// Where the part of `text` before the first `delimiter` ends: the place of
/// that delimiter, or the length of `text` if it holds none.
pub open spec fn head_len(text: Seq<char>, delimiter: char) -> int
    decreases text.len(),
{
    if text.len() == 0 || text[0] == delimiter {
        0
    } else {
        1 + head_len(text.drop_first(), delimiter)
    }
}

/// The part of `text` that comes before its first `delimiter`: all of it if
/// it holds none.
pub open spec fn head_of(text: Seq<char>, delimiter: char) -> Seq<char> {
    text.take(head_len(text, delimiter))
}

/// The head of a text ends at a place in it.
pub proof fn lemma_head_len_bounds(text: Seq<char>, delimiter: char)
    ensures
        0 <= head_len(text, delimiter) <= text.len(),
    decreases text.len(),
{
    if text.len() > 0 && text[0] != delimiter {
        lemma_head_len_bounds(text.drop_first(), delimiter);
    }
}

/// Bytes that hold no delimiter put off the end of the head by their number.
proof fn lemma_head_end_skips(skipped: Seq<u8>, rest: Seq<u8>, delimiter: u8)
    requires
        forall|i: int| 0 <= i < skipped.len() ==> skipped[i] != delimiter,
    ensures
        head_end(skipped + rest, delimiter) == skipped.len() + head_end(rest, delimiter),
    decreases skipped.len(),
{
    if skipped.len() == 0 {
        assert(skipped + rest =~= rest);
    } else {
        let tail = skipped.drop_first();
        assert((skipped + rest)[0] == skipped[0]);
        assert((skipped + rest).drop_first() =~= tail + rest);
        assert forall|i: int| 0 <= i < tail.len() implies tail[i] != delimiter by {
            assert(tail[i] == skipped[i + 1]);
        }
        lemma_head_end_skips(tail, rest, delimiter);
    }
}

/// A character below 128 is encoded as the one byte of its number, and that
/// byte occurs in the encoding of no other character.
proof fn lemma_encoding_of_delimiter(c: char, delimiter: u8)
    requires
        delimiter < 128,
    ensures
        c == delimiter as char ==> encode_scalar(c as u32) == seq![delimiter],
        c != delimiter as char ==> forall|i: int|
            0 <= i < encode_scalar(c as u32).len() ==> #[trigger] encode_scalar(c as u32)[i]
                != delimiter,
{
    let scalar = c as u32;
    let d = delimiter as u32;
    char_is_scalar(c);
    assert(delimiter as char as u32 == d);
    assert(c == delimiter as char <==> scalar == d) by {
        char_u32_cast(c, scalar);
    }
    assert(scalar <= 0x7F ==> (scalar & 0x7F) as u8 == scalar) by (bit_vector);
    assert((0xC0u8 | ((scalar >> 6) & 0x1F) as u8) >= 0x80) by (bit_vector);
    assert((0xE0u8 | ((scalar >> 12) & 0x0F) as u8) >= 0x80) by (bit_vector);
    assert((0xF0u8 | ((scalar >> 18) & 0x7) as u8) >= 0x80) by (bit_vector);
    assert((0x80u8 | (scalar & 0x3F) as u8) >= 0x80) by (bit_vector);
    assert((0x80u8 | ((scalar >> 6) & 0x3F) as u8) >= 0x80) by (bit_vector);
    assert((0x80u8 | ((scalar >> 12) & 0x3F) as u8) >= 0x80) by (bit_vector);
    if c == delimiter as char {
        assert(encode_scalar(scalar) =~= seq![delimiter]);
    }
}

/// Cutting the bytes of a text at the first delimiter byte gives the bytes of
/// the text cut at the first delimiter character, for a delimiter below 128.
pub proof fn lemma_head_of_bytes(text: Seq<char>, delimiter: u8)
    requires
        delimiter < 128,
    ensures
        encode_utf8(text).subrange(0, head_end(encode_utf8(text), delimiter)) == encode_utf8(
            head_of(text, delimiter as char),
        ),
    decreases text.len(),
{
    let bytes = encode_utf8(text);
    let mark = delimiter as char;
    if text.len() == 0 {
        assert(head_of(text, mark) =~= text);
        assert(bytes.subrange(0, 0) =~= bytes);
    } else {
        let first = encode_scalar(text[0] as u32);
        let rest = text.drop_first();
        lemma_encoding_of_delimiter(text[0], delimiter);
        if text[0] == mark {
            assert(bytes[0] == first[0]);
            assert(head_of(text, mark) =~= Seq::<char>::empty());
            assert(bytes.subrange(0, 0) =~= encode_utf8(Seq::<char>::empty()));
        } else {
            lemma_head_of_bytes(rest, delimiter);
            lemma_head_end_skips(first, encode_utf8(rest), delimiter);
            lemma_head_end(encode_utf8(rest), delimiter);
            lemma_head_len_bounds(rest, mark);
            let cut = head_end(encode_utf8(rest), delimiter);
            let head = head_of(text, mark);
            assert(head.len() > 0 && head[0] == text[0]);
            assert(head.drop_first() =~= head_of(rest, mark));
            assert(bytes.subrange(0, first.len() + cut) =~= first + encode_utf8(rest).subrange(
                0,
                cut,
            ));
        }
    }
}

/// The end of the head is a place in the bytes, no delimiter comes before
/// it, and a delimiter stands at it unless it is the end of the bytes.
pub proof fn lemma_head_end(bytes: Seq<u8>, delimiter: u8)
    ensures
        0 <= head_end(bytes, delimiter) <= bytes.len(),
        forall|i: int| 0 <= i < head_end(bytes, delimiter) ==> bytes[i] != delimiter,
        head_end(bytes, delimiter) < bytes.len() ==> bytes[head_end(bytes, delimiter)]
            == delimiter,
    decreases bytes.len(),
{
    if bytes.len() == 0 || bytes[0] == delimiter {
    } else {
        let rest = bytes.drop_first();
        let end = head_end(bytes, delimiter);
        lemma_head_end(rest, delimiter);
        assert forall|i: int| 0 <= i < end implies bytes[i] != delimiter by {
            if i > 0 {
                assert(bytes[i] == rest[i - 1]);
            }
        }
        if end < bytes.len() {
            assert(bytes[end] == rest[end - 1]);
        }
    }
}

/// A place that no delimiter comes before, and that holds a delimiter or is
/// the end of the bytes, is where the head ends.
pub proof fn lemma_head_end_found(bytes: Seq<u8>, delimiter: u8, end: int)
    requires
        0 <= end <= bytes.len(),
        forall|i: int| 0 <= i < end ==> bytes[i] != delimiter,
        end < bytes.len() ==> bytes[end] == delimiter,
    ensures
        head_end(bytes, delimiter) == end,
    decreases bytes.len(),
{
    if bytes.len() == 0 || bytes[0] == delimiter {
        if end > 0 {
            assert(bytes[0] != delimiter);
        }
    } else {
        let rest = bytes.drop_first();
        assert forall|i: int| 0 <= i < end - 1 implies rest[i] != delimiter by {
            assert(rest[i] == bytes[i + 1]);
        }
        lemma_head_end_found(rest, delimiter, end - 1);
    }
}

/// In a text, the head before a delimiter below 128 ends between two
/// characters.
pub proof fn lemma_head_end_is_char_boundary(text: Seq<char>, delimiter: u8)
    requires
        delimiter < 128,
    ensures
        is_char_boundary(encode_utf8(text), head_end(encode_utf8(text), delimiter)),
{
    let bytes = encode_utf8(text);
    let end = head_end(bytes, delimiter);
    lemma_head_end(bytes, delimiter);
    encode_utf8_valid_utf8(text);
    if end < bytes.len() {
        assert(!is_continuation_byte(delimiter)) by {
            assert(delimiter < 128u8 ==> delimiter & 0xc0 != 0x80) by (bit_vector);
        }
        is_char_boundary_iff_not_is_continuation_byte(bytes, end);
    } else {
        is_char_boundary_start_end_of_seq(bytes);
    }
}

/// Finds where the part of `bytes` before the first `delimiter` ends.
pub fn find_head_end(bytes: &[u8], delimiter: u8) -> (end: usize)
    ensures
        end == head_end(bytes@, delimiter),
{
    let mut i: usize = 0;
    while i < bytes.len()
        invariant
            i <= bytes@.len(),
            forall|j: int| 0 <= j < i ==> bytes@[j] != delimiter,
        decreases bytes@.len() - i,
    {
        if bytes[i] == delimiter {
            proof {
                lemma_head_end_found(bytes@, delimiter, i as int);
            }
            return i;
        }
        i += 1;
    }
    proof {
        lemma_head_end_found(bytes@, delimiter, i as int);
    }
    i
}

/// The part of `s` before its first `delimiter`, as a slice of `s`: all of
/// `s` if it holds none. The delimiter has to be below 128.
pub fn head<'a>(s: &'a str, delimiter: u8) -> (part: &'a str)
    requires
        delimiter < 128,
    ensures
        part@ == head_of(s@, delimiter as char),
{
    let end = find_head_end(s.as_bytes(), delimiter);
    proof {
        lemma_head_end_is_char_boundary(s@, delimiter);
    }
    let (part, _rest) = s.split_at(end);
    proof {
        encode_utf8_decode_utf8(part@);
        lemma_head_of_bytes(s@, delimiter);
        encode_utf8_decode_utf8(head_of(s@, delimiter as char));
    }
    part
}

} // verus!
