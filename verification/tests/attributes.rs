use keibrush::element::{
    BlendMode, Brush, Cap, Color, ColorStop, Compose, Extend, FillRule, FillStyle, Join,
    LinearGradient, Mix, StrokeStyle,
};
use keibrush::math::Point2;

#[test]
fn rgb_colors_are_opaque() {
    let color = Color::rgb(1i64, 0, 0);

    assert_eq!(color, Color::rgba(1, 0, 0, 1));
    assert_eq!(Color::<i64>::white(), Color::rgba(1, 1, 1, 1));
    assert_eq!(Color::<i64>::black(), Color::rgba(0, 0, 0, 1));
    assert_eq!(Color::<i64>::red(), Color::rgba(1, 0, 0, 1));
    assert_eq!(Color::<i64>::green(), Color::rgba(0, 1, 0, 1));
    assert_eq!(Color::<i64>::blue(), Color::rgba(0, 0, 1, 1));
    assert_eq!(Color::<i64>::transparent(), Color::rgba(0, 0, 0, 0));
}

#[test]
fn brushes_convert_from_their_sources() {
    let color = Color::rgb(1i64, 0, 0);

    assert_eq!(Brush::from(color), Brush::Solid(color));

    let gradient = LinearGradient::<i64>::default();

    assert_eq!(Brush::from(gradient.clone()), Brush::LinearGradient(gradient));
}

#[test]
fn linear_gradient_defaults_to_empty() {
    let gradient = LinearGradient::<i64>::default();

    assert_eq!(gradient.start, Point2::new(0, 0));
    assert_eq!(gradient.end, Point2::new(0, 0));
    assert_eq!(gradient.extend, Extend::Pad);
    assert!(gradient.stops.is_empty());
}

#[test]
fn color_stops_hold_offset_and_color() {
    let stop = ColorStop::new(0i64, Color::rgb(0, 1, 0));

    assert_eq!(stop.offset, 0);
    assert_eq!(stop.color, Color::rgb(0, 1, 0));
}

#[test]
fn fill_style_defaults_to_non_zero() {
    assert_eq!(FillStyle::default().rule, FillRule::NonZero);
    assert_eq!(FillRule::default(), FillRule::NonZero);
}

#[test]
fn stroke_style_defaults() {
    let style = StrokeStyle::<i64>::default();

    assert_eq!(style.width, 1);
    assert_eq!(style.join, Join::Round);
    assert_eq!(style.start, Cap::Round);
    assert_eq!(style.end, Cap::Round);
    assert_eq!(style.miter_limit, 4);
    assert_eq!(Join::default(), Join::Round);
    assert_eq!(Cap::default(), Cap::Round);
}

#[test]
fn blend_mode_defaults() {
    let blend = BlendMode::default();

    assert_eq!(blend.mix, Mix::Normal);
    assert_eq!(blend.compose, Compose::SrcOver);
}
