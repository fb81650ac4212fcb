use rust_basics::rect::Rect;

#[test]
fn area_of_fifty_by_twenty() {
    let rect = Rect { width: 50, height: 20 };
    assert_eq!(rect.area(), 1000);
}

#[test]
fn perimeter_of_fifty_by_twenty() {
    let rect = Rect { width: 50, height: 20 };
    assert_eq!(rect.perimeter(), 140);
}

#[test]
fn degenerate_rectangle() {
    let rect = Rect { width: 0, height: 7 };
    assert_eq!(rect.area(), 0);
    assert_eq!(rect.perimeter(), 14);
}

#[test]
fn sides_are_not_interchanged_in_the_record() {
    let rect = Rect { width: 3, height: 4 };
    assert_eq!(rect.width, 3);
    assert_eq!(rect.height, 4);
    assert_eq!(rect.area(), 12);
    assert_eq!(rect.perimeter(), 14);
}

#[test]
fn largest_area_that_fits() {
    let rect = Rect { width: 46_340, height: 46_340 };
    assert_eq!(rect.area(), 2_147_395_600);
    assert_eq!(rect.perimeter(), 185_360);
}

#[test]
fn negative_side() {
    let rect = Rect { width: -5, height: 4 };
    assert_eq!(rect.area(), -20);
    assert_eq!(rect.perimeter(), -2);
}
