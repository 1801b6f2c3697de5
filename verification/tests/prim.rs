use purple::color::Color;
use purple::coords::Vec2 as Pair;
use purple::prim::{clamp_to_u32, Affine, BoundingBox, Dimensions, Point, Vec2, AFFINE_ONE};
use purple::shapes::{Circle, Rect, RoundedRect, Shape};

#[test]
fn colors_from_arrays() {
    assert_eq!(Color::from([1, 2, 3, 4]), Color { r: 1, g: 2, b: 3, a: 4 });
    assert_eq!(Color::from(&[1, 2, 3, 4]), Color { r: 1, g: 2, b: 3, a: 4 });
    assert_eq!(Color::from([1, 2, 3]), Color { r: 1, g: 2, b: 3, a: 255 });
    assert_eq!(Color::from(&[9, 8, 7]), Color { r: 9, g: 8, b: 7, a: 255 });
}

#[test]
fn dimensions() {
    assert_eq!(Dimensions::new(3, 4), Dimensions { width: 3, height: 4 });
    assert_eq!(Dimensions::zero(), Dimensions { width: 0, height: 0 });
    assert!(Dimensions::zero().is_zero());
    assert!(!Dimensions::new(0, 1).is_zero());
    assert!(!Dimensions::new(1, 0).is_zero());
    assert_eq!(Dimensions::from((3i32, -4i32)), Dimensions { width: 3, height: -4 });
    assert_eq!(Dimensions::from((3u32, u32::MAX)), Dimensions { width: 3, height: 4294967295 });
    assert_eq!(Dimensions::from((3i64, 4i64)), Dimensions { width: 3, height: 4 });
}

#[test]
fn dimensions_to_pixels_are_clamped() {
    assert_eq!(Dimensions::new(960, 540).to_pixels(), (960, 540));
    assert_eq!(Dimensions::new(-1, i64::MAX).to_pixels(), (0, u32::MAX));
    assert_eq!(<(u32, u32)>::from(Dimensions::new(i64::MIN, 4294967296)), (0, u32::MAX));
    assert_eq!(clamp_to_u32(4294967295), u32::MAX);
    assert_eq!(clamp_to_u32(4294967294), 4294967294);
    assert_eq!(clamp_to_u32(0), 0);
}

#[test]
fn points_and_vectors() {
    assert_eq!(Point::from((1i32, -2i32)), Point { x: 1, y: -2 });
    assert_eq!(Point::from((1i64, -2i64)), Point { x: 1, y: -2 });
    assert_eq!(Vec2::from((1i32, -2i32)), Vec2 { x: 1, y: -2 });
    assert_eq!(Vec2::from((1i64, -2i64)), Vec2 { x: 1, y: -2 });
    assert_eq!(Point::from(Vec2 { x: 5, y: 6 }), Point { x: 5, y: 6 });
    assert_eq!(Vec2::from(Point { x: 5, y: 6 }), Vec2 { x: 5, y: 6 });
}

#[test]
fn bounding_box() {
    let bbox = BoundingBox::new(1, 2, 3, 4);
    assert_eq!(bbox, BoundingBox { x: 1, y: 2, width: 3, height: 4 });
    assert_eq!(bbox, BoundingBox::from((1i64, 2i64, 3i64, 4i64)));
    assert_eq!(bbox.point(), Point { x: 1, y: 2 });
    assert_eq!(bbox.dimensions(), Dimensions { width: 3, height: 4 });
}

#[test]
fn affine() {
    let identity = Affine::new();
    assert_eq!(AFFINE_ONE, 65536);
    assert_eq!(identity, Affine { xx: 65536, yx: 0, xy: 0, yy: 65536, dx: 0, dy: 0 });
    assert_eq!(identity.translation(), (0, 0));
    let moved = identity.translate(10, -20).translate(5, 5);
    assert_eq!(moved.translation(), (15, -15));
    assert_eq!((moved.xx, moved.yx, moved.xy, moved.yy), (65536, 0, 0, 65536));
    let skewed = Affine { xx: 1, yx: 2, xy: 3, yy: 4, dx: 5, dy: 6 };
    assert_eq!(skewed.translate_abs(-7, 8), Affine { xx: 1, yx: 2, xy: 3, yy: 4, dx: -7, dy: 8 });
    assert_eq!(skewed.translate(1, 1), Affine { xx: 1, yx: 2, xy: 3, yy: 4, dx: 6, dy: 7 });
}

#[test]
fn shapes() {
    assert_eq!(Circle::new(1, 2, 3), Circle { cx: 1, cy: 2, radius: 3 });
    assert_eq!(Rect::new(10, 20, 30, 40), Rect { x0: 10, y0: 20, x1: 40, y1: 60 });
    assert_eq!(Rect::abs(10, 20, 30, 40), Rect { x0: 10, y0: 20, x1: 30, y1: 40 });
    assert_eq!(Rect::new(10, 20, -30, 0), Rect { x0: 10, y0: 20, x1: -20, y1: 20 });
    assert_eq!(
        RoundedRect::new(10, 20, 30, 40, 5),
        RoundedRect { x0: 10, y0: 20, x1: 40, y1: 60, radius: 5 }
    );
    assert_eq!(
        RoundedRect::abs(10, 20, 30, 40, 5),
        RoundedRect { x0: 10, y0: 20, x1: 30, y1: 40, radius: 5 }
    );
    assert_ne!(Shape::Rect(Rect::abs(0, 0, 1, 1)), Shape::Circle(Circle::new(0, 0, 1)));
}

#[test]
fn pairs() {
    let mut a: (i32, i32) = (1, -2);
    assert_eq!((a.x(), a.y()), (1, -2));
    a.set_x(5);
    assert_eq!(a, (5, -2));
    a.set_y(6);
    assert_eq!(a, (5, 6));
    let mut b: (u32, u32) = (1, 2);
    b.set_x(9);
    b.set_y(8);
    assert_eq!((b.x(), b.y()), (9, 8));
    let mut c: (u64, u64) = (1, 2);
    c.set_y(u64::MAX);
    assert_eq!((c.x(), c.y()), (1, u64::MAX));
    let mut d: (i64, i64) = (1, 2);
    d.set_x(i64::MIN);
    assert_eq!((d.x(), d.y()), (i64::MIN, 2));
}
