use rust_primer::generic_types_traits_lifetimes_intro::{
    find_largest_number_in_list, find_larget_number_2_lists, largest,
};

#[test]
fn largest_of_the_first_list() {
    let number_list = vec![34, 50, 25, 100, 65];
    assert_eq!(*largest(&number_list), 100);
}

#[test]
fn largest_of_the_second_list() {
    let number_list = vec![102, 34, 6000, 89, 54, 2, 43, 8];
    assert_eq!(*largest(&number_list), 6000);
}

#[test]
fn largest_of_a_single_number_and_of_negatives() {
    assert_eq!(*largest(&[0]), 0);
    assert_eq!(*largest(&[-1, -1]), -1);
    assert_eq!(*largest(&[i32::MIN]), i32::MIN);
}

#[test]
fn largest_number_found_in_the_list_itself() {
    assert_eq!(find_largest_number_in_list(vec![34, 50, 25, 100, 65]), 100);
    assert_eq!(find_largest_number_in_list(vec![-4]), -4);
    assert_eq!(find_largest_number_in_list(vec![2, 2, 1]), 2);
}

#[test]
fn largest_numbers_of_two_lists() {
    assert_eq!(
        find_larget_number_2_lists(
            vec![34, 50, 25, 100, 65],
            vec![102, 34, 6000, 89, 54, 2, 43, 8]
        ),
        (100, 6000)
    );
    assert_eq!(find_larget_number_2_lists(vec![i32::MIN], vec![i32::MAX, 0]), (i32::MIN, i32::MAX));
}
