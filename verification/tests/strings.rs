use rust_primer::strings::{
    cat_mult_strings_plus, cat_mult_strings_println_macro, cat_strings_with_plus,
};

#[test]
fn plus_puts_the_second_behind_the_first() {
    let s1 = String::from("Hello, ");
    let s2 = String::from("World!!");
    assert_eq!(cat_strings_with_plus(s1, &s2), "Hello, World!!");
    assert_eq!(s2, "World!!");
    assert_eq!(cat_strings_with_plus(String::new(), &String::new()), "");
}

#[test]
fn three_strings_are_joined_by_hyphens() {
    let s1 = String::from("tic");
    let s2 = String::from("tac");
    let s3 = String::from("toe");
    assert_eq!(cat_mult_strings_println_macro(&s1, &s2, &s3), "tic-tac-toe");
    assert_eq!(cat_mult_strings_plus(s1, &s2, &s3), "tic-tac-toe");
}

#[test]
fn empty_strings_leave_only_the_hyphens() {
    let e = String::new();
    assert_eq!(cat_mult_strings_println_macro(&e, &e, &e), "--");
    assert_eq!(cat_mult_strings_plus(String::new(), &e, &e), "--");
}
