use rust_primer::decimal::{is_whitespace, parse_number};

#[test]
fn plain_numbers_are_read() {
    assert_eq!(parse_number("5"), Some(5));
    assert_eq!(parse_number("42"), Some(42));
    assert_eq!(parse_number("0"), Some(0));
    assert_eq!(parse_number("007"), Some(7));
    assert_eq!(parse_number("+13"), Some(13));
}

#[test]
fn white_space_around_a_number_is_passed_over() {
    assert_eq!(parse_number("5\n"), Some(5));
    assert_eq!(parse_number("  50 \r\n"), Some(50));
    assert_eq!(parse_number("\t+9\u{3000}"), Some(9));
    assert_eq!(parse_number("\u{a0}77\u{2028}"), Some(77));
}

#[test]
fn largest_number_is_read_and_the_next_is_not() {
    assert_eq!(parse_number("4294967295"), Some(u32::MAX));
    assert_eq!(parse_number("4294967296"), None);
    assert_eq!(parse_number("4294967300"), None);
    assert_eq!(parse_number("99999999999999999999"), None);
    assert_eq!(parse_number("00000000004294967295"), Some(u32::MAX));
}

#[test]
fn what_is_no_numeral_is_not_read() {
    for line in ["", " ", "\n", "+", "-", "-5", "++5", "5+", "1 2", "12a", "a12", "1_000", "0x10", "1.0", "٣"] {
        assert_eq!(parse_number(line), None, "{:?}", line);
    }
}

#[test]
fn reading_agrees_with_the_standard_library() {
    let lines = [
        "", "0", "1", "100", "101", " 7", "7 ", "+7", "+ 7", "-0", "+0", "4294967295",
        "4294967296", "abc", "12abc", "\u{85}3\u{85}", "\u{1680}3", "3\u{200a}", "\u{200b}3",
        "\u{feff}3", "3\u{180e}", "1\u{a0}2", "²", "१२", "+", " + ", "0000", "\x0b9\x0c",
        "\x1c9", "9\x1f",
    ];
    for line in lines {
        assert_eq!(parse_number(line), line.trim().parse::<u32>().ok(), "{:?}", line);
    }
}

#[test]
fn white_space_is_what_the_standard_library_says() {
    for code in 0u32..0x11_0000 {
        if let Some(c) = char::from_u32(code) {
            assert_eq!(is_whitespace(c), c.is_whitespace(), "{:#x}", code);
        }
    }
}
