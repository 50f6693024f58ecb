use rust_primer::functions::{expressions, functions_with_return_values};

#[test]
fn block_evaluates_to_its_last_expression() {
    assert_eq!(expressions(), 4);
}

#[test]
fn function_returns_its_last_expression() {
    assert_eq!(functions_with_return_values(), 5);
}
