use rust_primer::struct_method_syntax::Rectangle;

#[test]
fn area_is_width_times_height() {
    let rect1 = Rectangle { width: 30, height: 50 };
    assert_eq!(rect1.area(), 1500);
    assert_eq!(Rectangle { width: 65535, height: 65537 }.area(), u32::MAX);
    assert_eq!(Rectangle { width: 0, height: 9 }.area(), 0);
}

#[test]
fn larger_rectangle_holds_the_smaller() {
    let rect1 = Rectangle { width: 30, height: 50 };
    let rect2 = Rectangle { width: 10, height: 40 };
    let rect3 = Rectangle { width: 60, height: 45 };
    assert!(rect1.can_hold(&rect2));
    assert!(!rect1.can_hold(&rect3));
    assert!(!rect2.can_hold(&rect1));
}

#[test]
fn rectangle_does_not_hold_one_with_an_equal_side() {
    let rect = Rectangle { width: 30, height: 50 };
    assert!(!rect.can_hold(&rect));
    assert!(!rect.can_hold(&Rectangle { width: 30, height: 1 }));
    assert!(!rect.can_hold(&Rectangle { width: 1, height: 50 }));
    assert!(rect.can_hold(&Rectangle { width: 29, height: 49 }));
}

#[test]
fn square_has_equal_sides() {
    assert_eq!(Rectangle::square(3), Rectangle { width: 3, height: 3 });
    assert_eq!(Rectangle::square(0), Rectangle { width: 0, height: 0 });
}
