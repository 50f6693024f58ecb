use rust_primer::iterators::iterator_adaptor_with_consumer;

#[test]
fn iterator_demonstration() {
    let v1 = vec![1, 2, 3];

    let mut v1_iter = v1.iter();

    assert_eq!(v1_iter.next(), Some(&1));
    assert_eq!(v1_iter.next(), Some(&2));
    assert_eq!(v1_iter.next(), Some(&3));
    assert_eq!(v1_iter.next(), None);
}

#[test]
fn iterator_sum() {
    let v1 = vec![1, 2, 3];

    let v1_iter = v1.iter();

    let total: i32 = v1_iter.sum();

    assert_eq!(total, 6);
}

#[test]
fn adaptor_adds_one_to_each() {
    let v1: Vec<i32> = vec![1, 2, 3];
    assert_eq!(iterator_adaptor_with_consumer(&v1), vec![2, 3, 4]);
    assert_eq!(v1, vec![1, 2, 3]);
    assert_eq!(iterator_adaptor_with_consumer(&Vec::new()), Vec::<i32>::new());
    assert_eq!(iterator_adaptor_with_consumer(&vec![-1, i32::MAX - 1]), vec![0, i32::MAX]);
}
