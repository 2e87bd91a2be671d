use keibrush::element::{Path, PathBuilder, PathElement, Verb};
use keibrush::math::{Point2, Rect, Size2};

#[test]
fn new_path_is_empty() {
    assert!(Path::<i64>::new().is_empty());
}

#[test]
fn single_open_becomes_empty_path() {
    let path = Path::<i64>::from_fn(|mut builder| {
        builder.open(Point2::new(1, 1));

        builder
    });

    assert!(path.is_empty());
}

#[test]
fn subpaths_are_closed_on_build() {
    let mut builder = Path::<i64>::builder();

    builder.open(Point2::new(1, 0));
    builder.line_to(Point2::new(1, 1));
    builder.line_to(Point2::new(0, 1));
    builder.line_to(Point2::new(0, 0));

    let path = builder.build();
    let verbs = path.verbs();

    assert_eq!(verbs.len(), 5);
    assert_eq!(verbs[0], Verb::Open);
    assert_eq!(verbs[1], Verb::LineTo);
    assert_eq!(verbs[2], Verb::LineTo);
    assert_eq!(verbs[3], Verb::LineTo);
    assert_eq!(verbs[4], Verb::Close);
}

#[test]
fn empty_builder_becomes_empty_path() {
    let built = Path::<i64>::from_fn(|builder| builder);
    let empty = Path::<i64>::new();

    assert_eq!(built, empty);
}

#[test]
fn path_is_same_after_update() {
    let mut path = Path::<i64>::from_fn(|mut builder| {
        builder.line_to(Point2::new(1, 0));
        builder.line_to(Point2::new(1, 1));
        builder.line_to(Point2::new(0, 1));

        builder
    });
    let original = path.clone();

    path.update(|builder| builder);

    assert_eq!(path, original);
}

#[test]
fn square_path_has_four_points() {
    let mut builder = Path::<i64>::builder();

    builder.open(Point2::new(1, 0));
    builder.line_to(Point2::new(1, 1));
    builder.line_to(Point2::new(0, 1));
    builder.line_to(Point2::new(0, 0));

    let path = builder.build();

    assert_eq!(path.len(), 5);
    assert_eq!(path.points().len(), 4);
    assert_eq!(path.points()[0], Point2::new(1, 0));
    assert_eq!(path.points()[3], Point2::new(0, 0));
}

#[test]
fn iteration_decodes_elements_in_order() {
    let mut builder = Path::<i64>::builder();

    builder.open(Point2::new(1, 0));
    builder.line_to(Point2::new(1, 1));
    builder.line_to(Point2::new(0, 1));
    builder.line_to(Point2::new(0, 0));

    let path = builder.build();
    let mut elements = path.iter();

    assert_eq!(elements.len(), 5);
    assert_eq!(elements.next(), Some(PathElement::Open(Point2::new(1, 0))));
    assert_eq!(elements.next(), Some(PathElement::LineTo(Point2::new(1, 1))));
    assert_eq!(elements.next(), Some(PathElement::LineTo(Point2::new(0, 1))));
    assert_eq!(elements.next(), Some(PathElement::LineTo(Point2::new(0, 0))));
    assert_eq!(elements.next(), Some(PathElement::Close));
    assert_eq!(elements.next(), None);
    assert_eq!(elements.len(), 0);
}

#[test]
fn elements_returns_the_decoded_path() {
    let path = Path::<i64>::from_fn(|mut builder| {
        builder.open(Point2::new(3, 4));
        builder.quad_to(Point2::new(5, 6), Point2::new(7, 8));
        builder.cubic_to(Point2::new(1, 1), Point2::new(2, 2), Point2::new(3, 3));

        builder
    });

    let elements = path.elements();

    assert_eq!(
        elements,
        vec![
            PathElement::Open(Point2::new(3, 4)),
            PathElement::QuadTo { p: Point2::new(5, 6), c: Point2::new(7, 8) },
            PathElement::CubicTo {
                p: Point2::new(1, 1),
                c1: Point2::new(2, 2),
                c2: Point2::new(3, 3),
            },
            PathElement::Close,
        ]
    );
}

#[test]
fn drawing_without_open_starts_at_zero() {
    let path = Path::<i64>::from_fn(|mut builder| {
        builder.line_to(Point2::new(9, 9));

        builder
    });

    assert_eq!(
        path.elements(),
        vec![
            PathElement::Open(Point2::new(0, 0)),
            PathElement::LineTo(Point2::new(9, 9)),
            PathElement::Close,
        ]
    );
}

#[test]
fn drawing_after_close_reopens_at_last_opened_point() {
    let path = Path::<i64>::from_fn(|mut builder| {
        builder.open(Point2::new(2, 3));
        builder.line_to(Point2::new(4, 5));
        builder.close();
        builder.line_to(Point2::new(6, 7));

        builder
    });

    assert_eq!(
        path.elements(),
        vec![
            PathElement::Open(Point2::new(2, 3)),
            PathElement::LineTo(Point2::new(4, 5)),
            PathElement::Close,
            PathElement::Open(Point2::new(2, 3)),
            PathElement::LineTo(Point2::new(6, 7)),
            PathElement::Close,
        ]
    );
}

#[test]
fn close_on_fresh_builder_is_a_no_op() {
    let path = Path::<i64>::from_fn(|mut builder| {
        builder.close();

        builder
    });

    assert!(path.is_empty());
}

#[test]
fn builder_clear_resets_for_reuse() {
    let mut builder = PathBuilder::<i64>::new();

    builder.open(Point2::new(1, 1));
    builder.line_to(Point2::new(2, 2));

    assert_eq!(builder.len(), 2);
    assert!(!builder.is_empty());

    builder.clear();

    assert!(builder.is_empty());
    assert!(builder.build().is_empty());
}

#[test]
fn from_path_round_trips() {
    let path = Path::<i64>::from_fn(|mut builder| {
        builder.open(Point2::new(1, 2));
        builder.line_to(Point2::new(3, 4));

        builder
    });

    let rebuilt = PathBuilder::from_path(path.clone()).build();

    assert_eq!(rebuilt, path);
}

#[test]
fn path_clear_removes_all_elements() {
    let mut path = Path::<i64>::from_fn(|mut builder| {
        builder.open(Point2::new(1, 2));
        builder.line_to(Point2::new(3, 4));

        builder
    });

    path.clear();

    assert!(path.is_empty());
    assert_eq!(path.points().len(), 0);
}

#[test]
fn update_appends_to_the_existing_path() {
    let mut path = Path::<i64>::from_fn(|mut builder| {
        builder.open(Point2::new(0, 0));
        builder.line_to(Point2::new(1, 0));

        builder
    });

    path.update(|mut builder| {
        builder.open(Point2::new(5, 5));
        builder.line_to(Point2::new(6, 6));

        builder
    });

    assert_eq!(
        path.elements(),
        vec![
            PathElement::Open(Point2::new(0, 0)),
            PathElement::LineTo(Point2::new(1, 0)),
            PathElement::Close,
            PathElement::Open(Point2::new(5, 5)),
            PathElement::LineTo(Point2::new(6, 6)),
            PathElement::Close,
        ]
    );
}

#[test]
fn from_rect_traces_the_outline() {
    let rect = Rect::new(Point2::new(10i64, 20), Size2::new(30, 40));
    let path = Path::from_rect(rect);

    assert_eq!(
        path.elements(),
        vec![
            PathElement::Open(Point2::new(10, 20)),
            PathElement::LineTo(Point2::new(40, 20)),
            PathElement::LineTo(Point2::new(40, 60)),
            PathElement::LineTo(Point2::new(10, 60)),
            PathElement::Close,
        ]
    );
}

#[test]
fn default_path_and_builder_are_empty() {
    assert!(Path::<i64>::default().is_empty());
    assert!(PathBuilder::<i64>::default().is_empty());
}
