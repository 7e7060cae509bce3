use wunderbar::geometry::{Bounds, Padding, Point, Size};

#[test]
fn point_constructors_and_translation() {
    assert_eq!(Point::new(3, 4), Point { x: 3, y: 4 });
    assert_eq!(Point::origin(), Point { x: 0, y: 0 });
    assert_eq!(Point::new(3, 4).translate(10, 20), Point { x: 13, y: 24 });
    assert_eq!(Point::new(3, 4).translate_x(5), Point { x: 8, y: 4 });
    assert_eq!(Point::new(3, 4).translate_y(5), Point { x: 3, y: 9 });
}

#[test]
fn size_expand_and_contract() {
    assert_eq!(Size::zero(), Size { width: 0, height: 0 });
    let s = Size::new(100, 40);
    assert_eq!(s.expand(5, 6), Size::new(105, 46));
    assert_eq!(s.expand_width(5), Size::new(105, 40));
    assert_eq!(s.expand_height(6), Size::new(100, 46));
    assert_eq!(s.contract(5, 6), Size::new(95, 34));
    assert_eq!(s.contract_width(100), Size::new(0, 40));
    assert_eq!(s.contract_height(6), Size::new(100, 34));
}

#[test]
fn bounds_constructors() {
    assert_eq!(
        Bounds::new(1, 2, 3, 4),
        Bounds { position: Point::new(1, 2), size: Size::new(3, 4) }
    );
    assert_eq!(Bounds::new_at_origin(3, 4), Bounds::new(0, 0, 3, 4));
    assert_eq!(Bounds::new_with_zero_size(1, 2), Bounds::new(1, 2, 0, 0));
}

#[test]
fn padding_constructors() {
    assert_eq!(Padding::new(1, 2, 3, 4), Padding { left: 1, right: 2, top: 3, bottom: 4 });
    assert_eq!(Padding::uni(2), Padding::new(2, 2, 2, 2));
    assert_eq!(Padding::yx(1, 5), Padding::new(5, 5, 1, 1));
}

#[test]
fn padding_inset_moves_corner_and_shrinks_size() {
    let b = Bounds::new(10, 20, 100, 40);
    assert_eq!(b.padding_inset(&Padding::new(1, 2, 3, 4)), Bounds::new(11, 23, 97, 33));
}

#[test]
fn padding_inset_larger_than_size_gives_zero() {
    let b = Bounds::new(10, 20, 3, 4);
    assert_eq!(b.padding_inset(&Padding::uni(2)), Bounds::new(12, 22, 0, 0));
}
