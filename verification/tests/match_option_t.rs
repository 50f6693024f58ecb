use rust_primer::match_option_t::{call_plus_one, plus_one, underscore_pattern};

#[test]
fn plus_one_adds_one_inside_the_option() {
    assert_eq!(plus_one(Some(5)), Some(6));
    assert_eq!(plus_one(Some(-1)), Some(0));
    assert_eq!(plus_one(Some(i32::MIN)), Some(i32::MIN + 1));
    assert_eq!(plus_one(Some(i32::MAX - 1)), Some(i32::MAX));
}

#[test]
fn plus_one_keeps_nothing_as_nothing() {
    assert_eq!(plus_one(None), None);
}

#[test]
fn calling_plus_one_gives_six_and_nothing() {
    assert_eq!(call_plus_one(), (Some(6), None));
}

#[test]
fn only_four_values_have_a_name() {
    assert_eq!(underscore_pattern(1), Some("one"));
    assert_eq!(underscore_pattern(3), Some("three"));
    assert_eq!(underscore_pattern(5), Some("five"));
    assert_eq!(underscore_pattern(7), Some("seven"));
    for value in [0u8, 2, 4, 6, 8, 9, 200, 255] {
        assert_eq!(underscore_pattern(value), None);
    }
}
