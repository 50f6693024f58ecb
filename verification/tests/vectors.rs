use rust_primer::vectors::{iterate_through_mut_vector, reading_elements_of_vectors, RAISE, THIRD};

#[test]
fn third_item_is_read_if_there_is_one() {
    assert_eq!(THIRD, 2);
    let v = vec![1, 2, 3, 4, 5];
    assert_eq!(reading_elements_of_vectors(&v), Some(&3));
    assert_eq!(reading_elements_of_vectors(&vec![7, 8, 9]), Some(&9));
}

#[test]
fn short_vector_has_no_third_item() {
    assert_eq!(reading_elements_of_vectors(&vec![1, 2]), None);
    assert_eq!(reading_elements_of_vectors(&Vec::new()), None);
}

#[test]
fn every_item_is_raised_by_fifty() {
    assert_eq!(RAISE, 50);
    let mut v = vec![100, 32, 57];
    iterate_through_mut_vector(&mut v);
    assert_eq!(v, vec![150, 82, 107]);
    let mut edge = vec![i32::MIN, -50, i32::MAX - 50];
    iterate_through_mut_vector(&mut edge);
    assert_eq!(edge, vec![i32::MIN + 50, 0, i32::MAX]);
    let mut empty: Vec<i32> = Vec::new();
    iterate_through_mut_vector(&mut empty);
    assert!(empty.is_empty());
}
