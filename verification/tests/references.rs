use rust_primer::references_borrowing::{calculate_length, change_mutable};

#[test]
fn length_is_counted_in_bytes_and_the_string_stays() {
    let s1 = String::from("hello");
    assert_eq!(calculate_length(&s1), 5);
    assert_eq!(s1, "hello");
    assert_eq!(calculate_length(&String::new()), 0);
    assert_eq!(calculate_length(&String::from("Здравствуйте")), 24);
}

#[test]
fn change_appends_world() {
    let mut s = String::from("Hello");
    change_mutable(&mut s);
    assert_eq!(s, "Hello, world!");
    change_mutable(&mut s);
    assert_eq!(s, "Hello, world!, world!");
    let mut empty = String::new();
    change_mutable(&mut empty);
    assert_eq!(empty, ", world!");
}
