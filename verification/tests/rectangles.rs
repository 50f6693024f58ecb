use rust_primer::rectangles::{
    area1, area_structs, area_tuple, main_rectangle1, main_rectangle_structs,
    main_rectangle_tuple, Rectangle,
};

#[test]
fn area_of_30_by_50_is_1500_in_every_form() {
    assert_eq!(area1(30, 50), 1500);
    assert_eq!(area_tuple((30, 50)), 1500);
    assert_eq!(area_structs(&Rectangle { width: 30, height: 50 }), 1500);
}

#[test]
fn area_with_a_side_of_zero_is_zero() {
    assert_eq!(area1(0, 50), 0);
    assert_eq!(area_tuple((30, 0)), 0);
    assert_eq!(area_structs(&Rectangle { width: 0, height: 0 }), 0);
}

#[test]
fn area_may_be_as_large_as_a_u32() {
    assert_eq!(area1(65535, 65537), u32::MAX);
    assert_eq!(area_tuple((u32::MAX, 1)), u32::MAX);
    assert_eq!(area_structs(&Rectangle { width: 1, height: u32::MAX }), u32::MAX);
}

#[test]
fn sample_rectangle_has_an_area_of_1500() {
    assert_eq!(main_rectangle1(), 1500);
    assert_eq!(main_rectangle_tuple(), 1500);
    assert_eq!(main_rectangle_structs(), (Rectangle { width: 30, height: 50 }, 1500));
}
