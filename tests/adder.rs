use minigrep::adder::{add, Rectangle};

#[test]
fn it_works() {
    let result = add(2, 2);
    assert_eq!(result, 4);
}

#[test]
fn larger_can_hold_smaller() {
    let larger = Rectangle {
        height: 8,
        width: 7,
    };
    let smaller = Rectangle {
        height: 5,
        width: 1,
    };

    assert!(larger.can_hold(&smaller));
}

#[test]
fn smaller_cannot_hold_larger() {
    let larger = Rectangle {
        height: 8,
        width: 7,
    };
    let smaller = Rectangle {
        height: 5,
        width: 1,
    };

    assert!(!smaller.can_hold(&larger));
}

#[test]
fn rectangle_does_not_hold_itself_or_an_equal_side() {
    let a = Rectangle { height: 8, width: 7 };
    let b = Rectangle { height: 8, width: 1 };
    assert!(!a.can_hold(&a));
    assert!(!a.can_hold(&b));
}
