//! Reading a number that a person typed.
//!
//! A line is trimmed of the white space around it, and what is left has to be
//! a decimal numeral: an optional `+` and then digits, at least one, that
//! spell a number a `u32` can hold.
use vstd::prelude::*;
use vstd::string::*;

verus! {

/// Whether `c` is white space: a character with the Unicode property
/// `White_Space`.
pub open spec fn spec_is_whitespace(c: char) -> bool {
    let n = c as u32;
    ||| 0x09 <= n <= 0x0D
    ||| n == 0x20
    ||| n == 0x85
    ||| n == 0xA0
    ||| n == 0x1680
    ||| 0x2000 <= n <= 0x200A
    ||| n == 0x2028
    ||| n == 0x2029
    ||| n == 0x202F
    ||| n == 0x205F
    ||| n == 0x3000
}

/// `text` without the white space at its start.
pub open spec fn trimmed_start(text: Seq<char>) -> Seq<char>
    decreases text.len(),
{
    if text.len() > 0 && spec_is_whitespace(text[0]) {
        trimmed_start(text.drop_first())
    } else {
        text
    }
}

/// `text` without the white space at its end.
pub open spec fn trimmed_end(text: Seq<char>) -> Seq<char>
    decreases text.len(),
{
    if text.len() > 0 && spec_is_whitespace(text.last()) {
        trimmed_end(text.drop_last())
    } else {
        text
    }
}

/// `text` without the white space at its start and at its end.
pub open spec fn trimmed(text: Seq<char>) -> Seq<char> {
    trimmed_end(trimmed_start(text))
}

/// Whether `c` is one of the digits `0` to `9`.
pub open spec fn is_digit(c: char) -> bool {
    '0' <= c <= '9'
}

/// The number that the digit `c` stands for.
pub open spec fn digit_value(c: char) -> nat {
    (c as u32 - '0' as u32) as nat
}

/// Whether `text` is made of digits only.
pub open spec fn all_digits(text: Seq<char>) -> bool {
    forall|i: int| 0 <= i < text.len() ==> is_digit(#[trigger] text[i])
}

/// The number that the digits of `text` spell, most significant digit first.
pub open spec fn number(text: Seq<char>) -> nat
    decreases text.len(),
{
    if text.len() == 0 {
        0
    } else {
        10 * number(text.drop_last()) + digit_value(text.last())
    }
}

/// `text` without the `+` that may lead it.
pub open spec fn unsigned(text: Seq<char>) -> Seq<char> {
    if text.len() > 0 && text[0] == '+' {
        text.drop_first()
    } else {
        text
    }
}

/// The number that `digits` spell, if they are digits, at least one, and the
/// number is small enough for a `u32`.
pub open spec fn spelled(digits: Seq<char>) -> Option<u32> {
    if digits.len() > 0 && all_digits(digits) && number(digits) <= u32::MAX {
        Some(number(digits) as u32)
    } else {
        None
    }
}

/// The number that `text` is a numeral of, if it is one: an optional `+`,
/// then digits that spell a number.
pub open spec fn numeral(text: Seq<char>) -> Option<u32> {
    spelled(unsigned(text))
}

/// The number that a person typed on `line`, if they typed one.
pub open spec fn typed_number(line: Seq<char>) -> Option<u32> {
    numeral(trimmed(line))
}

/// Trimming the start takes away exactly the white space that leads the text.
pub proof fn lemma_trimmed_start(text: Seq<char>, start: int)
    requires
        0 <= start <= text.len(),
        forall|i: int| 0 <= i < start ==> spec_is_whitespace(#[trigger] text[i]),
        start < text.len() ==> !spec_is_whitespace(text[start]),
    ensures
        trimmed_start(text) == text.subrange(start, text.len() as int),
    decreases start,
{
    if start == 0 {
        assert(text.subrange(0, text.len() as int) =~= text);
    } else {
        let rest = text.drop_first();
        assert(spec_is_whitespace(text[0]));
        assert forall|i: int| 0 <= i < start - 1 implies spec_is_whitespace(#[trigger] rest[i]) by {
            assert(rest[i] == text[i + 1]);
        }
        lemma_trimmed_start(rest, start - 1);
        assert(rest.subrange(start - 1, rest.len() as int) =~= text.subrange(
            start,
            text.len() as int,
        ));
    }
}

/// Trimming the end takes away exactly the white space that trails the text.
pub proof fn lemma_trimmed_end(text: Seq<char>, end: int)
    requires
        0 <= end <= text.len(),
        forall|i: int| end <= i < text.len() ==> spec_is_whitespace(#[trigger] text[i]),
        end > 0 ==> !spec_is_whitespace(text[end - 1]),
    ensures
        trimmed_end(text) == text.subrange(0, end),
    decreases text.len() - end,
{
    if end == text.len() {
        assert(text.subrange(0, end) =~= text);
    } else {
        let rest = text.drop_last();
        assert(spec_is_whitespace(text.last()));
        assert forall|i: int| end <= i < rest.len() implies spec_is_whitespace(#[trigger] rest[i]) by {
            assert(rest[i] == text[i]);
        }
        lemma_trimmed_end(rest, end);
        assert(rest.subrange(0, end) =~= text.subrange(0, end));
    }
}

/// A longer row of digits spells a number that is not smaller.
pub proof fn lemma_number_grows(text: Seq<char>, n: int)
    requires
        0 <= n <= text.len(),
    ensures
        number(text.take(n)) <= number(text),
    decreases text.len() - n,
{
    if n == text.len() {
        assert(text.take(n) =~= text);
    } else {
        lemma_number_grows(text, n + 1);
        assert(text.take(n + 1).drop_last() =~= text.take(n));
    }
}

/// Whether `c` is white space.
#[verifier::when_used_as_spec(spec_is_whitespace)]
pub fn is_whitespace(c: char) -> (white: bool)
    ensures
        white == spec_is_whitespace(c),
{
    let n: u32 = c as u32;
    (0x09 <= n && n <= 0x0D) || n == 0x20 || n == 0x85 || n == 0xA0 || n == 0x1680 || (0x2000 <= n
        && n <= 0x200A) || n == 0x2028 || n == 0x2029 || n == 0x202F || n == 0x205F || n == 0x3000
}

/// Reads the number that a person typed on `line`. White space around it is
/// passed over; anything else that is not part of a numeral, or a number too
/// large for a `u32`, means that no number was typed.
pub fn parse_number(line: &str) -> (typed: Option<u32>)
    ensures
        typed == typed_number(line@),
{
    let len = line.unicode_len();
    let mut start: usize = 0;
    while start < len && is_whitespace(line.get_char(start))
        invariant
            start <= len,
            len == line@.len(),
            forall|i: int| 0 <= i < start ==> spec_is_whitespace(#[trigger] line@[i]),
        decreases len - start,
    {
        start += 1;
    }
    let mut end: usize = len;
    while end > start && is_whitespace(line.get_char(end - 1))
        invariant
            start <= end <= len,
            len == line@.len(),
            forall|i: int| end <= i < len ==> spec_is_whitespace(#[trigger] line@[i]),
        decreases end,
    {
        end -= 1;
    }
    let ghost text = line@.subrange(start as int, end as int);
    proof {
        lemma_trimmed_start(line@, start as int);
        let tail = line@.subrange(start as int, len as int);
        assert forall|i: int| end - start <= i < tail.len() implies spec_is_whitespace(
            #[trigger] tail[i],
        ) by {
            assert(tail[i] == line@[i + start]);
        }
        if end > start {
            assert(tail[end - start - 1] == line@[end - 1]);
        }
        lemma_trimmed_end(tail, end - start);
        assert(tail.subrange(0, end - start) =~= text);
        assert(trimmed(line@) == text);
    }
    let mut i: usize = start;
    if i < end && line.get_char(i) == '+' {
        i += 1;
    }
    let ghost digits = line@.subrange(i as int, end as int);
    proof {
        assert(text.len() > 0 ==> text[0] == line@[start as int]);
        if i > start {
            assert(text.drop_first() =~= digits);
        } else {
            assert(text =~= digits);
        }
        assert(unsigned(text) == digits);
    }
    if i == end {
        return None;
    }
    let first: usize = i;
    let mut value: u32 = 0;
    while i < end
        invariant
            start <= first <= i <= end <= len,
            len == line@.len(),
            digits == line@.subrange(first as int, end as int),
            typed_number(line@) == spelled(digits),
            all_digits(digits.take(i - first)),
            value == number(digits.take(i - first)),
        decreases end - i,
    {
        let c = line.get_char(i);
        proof {
            assert(digits[i - first] == c);
            assert(digits.take(i - first + 1).drop_last() =~= digits.take(i - first));
            assert(digits.take(i - first + 1).last() == c);
        }
        if !(c >= '0' && c <= '9') {
            return None;
        }
        let d: u32 = c as u32 - '0' as u32;
        proof {
            lemma_number_grows(digits, i - first + 1);
            assert(number(digits.take(i - first + 1)) == 10 * value + d);
        }
        if value > (u32::MAX - d) / 10 {
            return None;
        }
        value = value * 10 + d;
        i += 1;
    }
    proof {
        assert(digits.take(end - first) =~= digits);
    }
    Some(value)
}

} // verus!
