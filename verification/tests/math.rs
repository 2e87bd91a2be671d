use keibrush::math::{
    Affine2, Mat2, Max, Min, NegOne, One, Point2, Rect, Scalar, Size2, Vec2, Zero,
};

#[test]
fn vec2_fmt_debug() {
    let vec = Vec2::new(1, 2);

    assert_eq!(&vec.debug_string(), "{x: 1, y: 2}");
}

#[test]
fn point2_fmt_debug() {
    let point = Point2::new(0, 0);

    assert_eq!(&point.debug_string(), "{x: 0, y: 0}");
}

#[test]
fn size2_fmt_debug() {
    let size = Size2::new(0, 0);

    assert_eq!(&size.debug_string(), "{w: 0, h: 0}");
}

#[test]
fn mat2_fmt_debug() {
    let mat = Mat2::from_columns(Vec2::new(1, 2), Vec2::new(3, 4));

    assert_eq!(&mat.debug_string(), "[[1, 2], [3, 4]]");
}

#[test]
fn negative_scalars_render_with_a_sign() {
    let vec = Vec2::new(-5, 10);

    assert_eq!(&vec.debug_string(), "{x: -5, y: 10}");

    let vec = Vec2::new(-128, 1000);

    assert_eq!(&vec.debug_string(), "{x: -128, y: 1000}");
}

#[test]
fn rect_contains() {
    let rect = Rect::from_size(Size2::splat(300i64));

    assert!(rect.contains_point(rect.origin));
    assert!(rect.contains_point(Point2::splat(100)));

    assert!(rect.contains(rect));
    assert!(rect.contains(Rect::new(Point2::splat(100), Size2::splat(100))));
}

#[test]
fn rect_from_size_contains_the_zero_point() {
    let rect = Rect::from_size(Size2::new(7i64, 9));

    assert!(rect.contains_point(Point2::zero()));
    assert!(!rect.contains_point(Point2::new(8, 0)));
    assert!(!rect.contains_point(Point2::new(-1, 0)));
}

#[test]
fn rect_edges_and_corners() {
    let rect = Rect::new(Point2::new(10i64, 20), Size2::new(30, 40));

    assert_eq!(rect.left(), 10);
    assert_eq!(rect.right(), 40);
    assert_eq!(rect.top(), 20);
    assert_eq!(rect.bottom(), 60);
    assert_eq!(rect.top_left(), Point2::new(10, 20));
    assert_eq!(rect.top_right(), Point2::new(40, 20));
    assert_eq!(rect.bottom_left(), Point2::new(10, 60));
    assert_eq!(rect.bottom_right(), Point2::new(40, 60));
    assert_eq!(
        rect.corners(),
        [
            Point2::new(10, 20),
            Point2::new(40, 20),
            Point2::new(10, 60),
            Point2::new(40, 60),
        ]
    );
}

#[test]
fn rect_with_insets_shrinks_symmetrically() {
    let rect = Rect::new(Point2::new(10i64, 10), Size2::new(100, 50));
    let inset = rect.with_insets(Vec2::new(5, 5));

    assert_eq!(inset, Rect::new(Point2::new(15, 15), Size2::new(90, 40)));
}

#[test]
fn rect_constructors_and_maps() {
    let rect = Rect::from_origin(Point2::new(3i64, 4));

    assert_eq!(rect, Rect::new(Point2::new(3, 4), Size2::new(0, 0)));

    let rect = rect.with_size(Size2::new(5, 6)).with_origin(Point2::new(0, 0));

    assert_eq!(rect, Rect::new(Point2::new(0, 0), Size2::new(5, 6)));

    let doubled = rect.map(|v: i64| v * 2);

    assert_eq!(doubled, Rect::new(Point2::new(0, 0), Size2::new(10, 12)));

    let moved = rect.map_origin(|p| p.with_x(9));

    assert_eq!(moved.origin, Point2::new(9, 0));

    let taller = rect.map_size(|s| s.with_h(100));

    assert_eq!(taller.size, Size2::new(5, 100));
}

#[test]
fn vec2_zip_unzip_round_trip() {
    let v = Vec2::new(1i64, 2);
    let w = Vec2::new("a", "b");

    assert_eq!(v.zip(w).unzip(), (v, w));
}

#[test]
fn point2_zip_unzip_round_trip() {
    let v = Point2::new(1i64, 2);
    let w = Point2::new(3u8, 4);

    assert_eq!(v.zip(w).unzip(), (v, w));
}

#[test]
fn size2_zip_unzip_round_trip() {
    let v = Size2::new(1i64, 2);
    let w = Size2::new(3u8, 4);

    assert_eq!(v.zip(w).unzip(), (v, w));
}

#[test]
fn mat2_zip_unzip_round_trip() {
    let m = Mat2::from_columns(Vec2::new(1i64, 2), Vec2::new(3, 4));
    let n = Mat2::from_columns(Vec2::new(5u8, 6), Vec2::new(7, 8));

    assert_eq!(m.zip(n).unzip(), (m, n));
}

#[test]
fn mat2_from_scale_one_is_identity() {
    assert_eq!(Mat2::from_scale(Vec2::splat(1i64)), Mat2::identity());
}

#[test]
fn affine2_from_scale_one_is_identity() {
    assert_eq!(Affine2::from_scale(Vec2::splat(1i64)), Affine2::identity());
    assert_eq!(Affine2::<i64>::default(), Affine2::identity());
}

#[test]
fn affine2_construction() {
    let translation = Vec2::new(3i64, 4);
    let affine = Affine2::from_translation(translation);

    assert_eq!(affine.transform, Mat2::identity());
    assert_eq!(affine.translation, translation);

    let affine = Affine2::from_transform(Mat2::splat(Vec2::new(1, 2)));

    assert_eq!(affine.translation, Vec2::new(0, 0));

    let mapped = affine.map_translation(|t| t.with_x(9));

    assert_eq!(mapped.translation, Vec2::new(9, 0));
    assert_eq!(mapped.transform, affine.transform);

    let mapped = affine.map_transform(|m| m.with_y(Vec2::new(7, 7)));

    assert_eq!(mapped.transform.y, Vec2::new(7, 7));
    assert_eq!(mapped.translation, affine.translation);
}

#[test]
fn vec2_component_operations() {
    let v = Vec2::new(1i64, 2);

    assert_eq!(Vec2::from_x(5i64), Vec2::new(5, 0));
    assert_eq!(Vec2::from_y(5i64), Vec2::new(0, 5));
    assert_eq!(Vec2::splat(7i64), Vec2::new(7, 7));
    assert_eq!(v.with_x(9), Vec2::new(9, 2));
    assert_eq!(v.with_y(9), Vec2::new(1, 9));
    assert_eq!(v.map(|n: i64| n + 1), Vec2::new(2, 3));
    assert_eq!(v.map_x(|n| n * 10), Vec2::new(10, 2));
    assert_eq!(v.map_y(|n| n * 10), Vec2::new(1, 20));
}

#[test]
fn point2_component_operations() {
    let p = Point2::new(1i64, 2);

    assert_eq!(Point2::splat(7i64), Point2::new(7, 7));
    assert_eq!(p.to_vec(), Vec2::new(1, 2));
    assert_eq!(p.with_x(9), Point2::new(9, 2));
    assert_eq!(p.with_y(9), Point2::new(1, 9));
    assert_eq!(p.map(|n: i64| n + 1), Point2::new(2, 3));
    assert_eq!(p.map_x(|n| n * 10), Point2::new(10, 2));
    assert_eq!(p.map_y(|n| n * 10), Point2::new(1, 20));
}

#[test]
fn size2_component_operations() {
    let s = Size2::new(1i64, 2);

    assert_eq!(Size2::splat(7i64), Size2::new(7, 7));
    assert_eq!(s.to_vec(), Vec2::new(1, 2));
    assert_eq!(s.with_w(9), Size2::new(9, 2));
    assert_eq!(s.with_h(9), Size2::new(1, 9));
    assert_eq!(s.map(|n: i64| n + 1), Size2::new(2, 3));
    assert_eq!(s.map_w(|n| n * 10), Size2::new(10, 2));
    assert_eq!(s.map_h(|n| n * 10), Size2::new(1, 20));
}

#[test]
fn mat2_column_operations() {
    let m = Mat2::from_columns(Vec2::new(1i64, 2), Vec2::new(3, 4));

    assert_eq!(Mat2::splat(Vec2::new(1i64, 2)).y, Vec2::new(1, 2));
    assert_eq!(m.with_x(Vec2::new(9, 9)).x, Vec2::new(9, 9));
    assert_eq!(m.with_y(Vec2::new(9, 9)).y, Vec2::new(9, 9));
    assert_eq!(
        m.map(|c: Vec2<i64>| c.map(|n: i64| n + 1)),
        Mat2::from_columns(Vec2::new(2, 3), Vec2::new(4, 5))
    );
    assert_eq!(m.map_x(|c| c.with_x(0)).x, Vec2::new(0, 2));
    assert_eq!(m.map_y(|c| c.with_y(0)).y, Vec2::new(3, 0));
    assert_eq!(Mat2::from_scale(Vec2::new(2i64, 3)), Mat2::from_columns(
        Vec2::new(2, 0),
        Vec2::new(0, 3),
    ));
}

#[test]
fn scalar_constants_for_integer_types() {
    assert_eq!(<i32 as Zero>::zero(), 0);
    assert_eq!(<i32 as One>::one(), 1);
    assert_eq!(<i16 as NegOne>::neg_one(), -1);
    assert_eq!(<i8 as Min>::min_value(), -128);
    assert_eq!(<u8 as Max>::max_value(), 255);
    assert_eq!(<u64 as Min>::min_value(), 0);
}

#[test]
fn scalar_arithmetic_is_exact() {
    assert_eq!(40i64.plus(2), 42);
    assert_eq!(40i64.minus(2), 38);
    assert!(2i64.at_most(3));
    assert!(3i64.at_most(3));
    assert!(!4i64.at_most(3));
    assert_eq!(<i64 as Scalar>::from_small(16), 16);
    assert_eq!(<u8 as Scalar>::from_small(100), 100);
}

#[test]
fn compound_constants_are_componentwise() {
    assert_eq!(Vec2::<i64>::zero(), Vec2::new(0, 0));
    assert_eq!(Vec2::<i64>::one(), Vec2::new(1, 1));
    assert_eq!(Vec2::<i32>::neg_one(), Vec2::new(-1, -1));
    assert_eq!(Point2::<u8>::max_value(), Point2::new(255, 255));
    assert_eq!(Size2::<i8>::min_value(), Size2::new(-128, -128));
    assert_eq!(Mat2::<i64>::zero(), Mat2::from_columns(Vec2::new(0, 0), Vec2::new(0, 0)));
    assert_eq!(
        Rect::<i64>::zero(),
        Rect::new(Point2::new(0, 0), Size2::new(0, 0))
    );
    assert_eq!(
        Rect::<i8>::max_value(),
        Rect::new(Point2::new(-128, -128), Size2::new(127, 127))
    );
}
