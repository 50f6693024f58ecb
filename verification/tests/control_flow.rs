use rust_primer::control_flow::{
    conditional_while_loops, if_expressions, looping_range_with_for, multiple_conditions,
    return_values_from_loops, using_if_in_a_let_statement, THRESHOLD,
};

#[test]
fn if_expression_tells_small_numbers_apart() {
    assert_eq!(THRESHOLD, 5);
    assert_eq!(if_expressions(3), "condition was true");
    assert_eq!(if_expressions(4), "condition was true");
    assert_eq!(if_expressions(5), "condition was false");
    assert_eq!(if_expressions(-7), "condition was true");
    assert_eq!(if_expressions(i32::MAX), "condition was false");
}

#[test]
fn first_matching_divisor_is_named() {
    assert_eq!(multiple_conditions(6), "number is divisible by 3");
    assert_eq!(multiple_conditions(12), "number is divisible by 4");
    assert_eq!(multiple_conditions(8), "number is divisible by 4");
    assert_eq!(multiple_conditions(2), "number is divisible by 2");
    assert_eq!(multiple_conditions(10), "number is divisible by 2");
    assert_eq!(multiple_conditions(7), "number is not divisible by 4, 3, or 2");
    assert_eq!(multiple_conditions(1), "number is not divisible by 4, 3, or 2");
    assert_eq!(multiple_conditions(0), "number is divisible by 4");
}

#[test]
fn negative_numbers_have_divisors_too() {
    assert_eq!(multiple_conditions(-6), "number is divisible by 3");
    assert_eq!(multiple_conditions(-8), "number is divisible by 4");
    assert_eq!(multiple_conditions(-2), "number is divisible by 2");
    assert_eq!(multiple_conditions(-7), "number is not divisible by 4, 3, or 2");
    assert_eq!(multiple_conditions(i32::MIN), "number is divisible by 4");
    assert_eq!(multiple_conditions(i32::MAX), "number is not divisible by 4, 3, or 2");
}

#[test]
fn if_in_a_let_picks_five_or_six() {
    assert_eq!(using_if_in_a_let_statement(true), 5);
    assert_eq!(using_if_in_a_let_statement(false), 6);
}

#[test]
fn loop_hands_back_twice_the_count() {
    assert_eq!(return_values_from_loops(10), 20);
    assert_eq!(return_values_from_loops(1), 2);
    assert_eq!(return_values_from_loops(1234), 2468);
}

#[test]
fn while_loop_counts_down_to_one() {
    assert_eq!(conditional_while_loops(3), vec![3, 2, 1]);
    assert_eq!(conditional_while_loops(1), vec![1]);
    assert_eq!(conditional_while_loops(0), Vec::<u32>::new());
}

#[test]
fn range_is_walked_in_reverse() {
    assert_eq!(looping_range_with_for(1, 4), vec![3, 2, 1]);
    assert_eq!(looping_range_with_for(0, 1), vec![0]);
    assert_eq!(looping_range_with_for(4, 4), Vec::<u32>::new());
    assert_eq!(looping_range_with_for(5, 4), Vec::<u32>::new());
    assert_eq!(looping_range_with_for(u32::MAX - 2, u32::MAX), vec![u32::MAX - 1, u32::MAX - 2]);
}
