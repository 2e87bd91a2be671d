use keibrush::element::{
    BlendMode, Brush, Color, FillRule, FillStyle, Layer, Path, Source, StrokeStyle,
};
use keibrush::math::{Affine2, Point2, Rect, Size2};
use keibrush::{Command, Scene};

fn square() -> Path<i64> {
    Path::from_rect(Rect::new(Point2::new(0, 0), Size2::new(10, 10)))
}

#[test]
fn new_scene_is_empty() {
    let scene = Scene::<i64>::new();

    assert!(scene.commands().is_empty());
    assert!(Scene::<i64>::default().commands().is_empty());
}

#[test]
fn fill_records_one_command_and_clear_removes_it() {
    let mut scene = Scene::new();

    scene.fill(
        square(),
        Brush::Solid(Color::rgb(1i64, 0, 0)),
        FillStyle { rule: FillRule::NonZero },
    );

    assert_eq!(scene.commands().len(), 1);
    assert!(matches!(scene.commands()[0], Command::Fill { .. }));

    scene.clear();

    assert_eq!(scene.commands().len(), 0);
}

#[test]
fn commands_replay_in_call_order() {
    let mut scene = Scene::new();

    scene.fill(square(), Brush::Solid(Color::rgb(1i64, 0, 0)), FillStyle::default());
    scene.stroke(square(), Brush::Solid(Color::rgb(0i64, 1, 0)), StrokeStyle::default());
    scene.draw_text(
        Source::Plain(String::from("hi")),
        Rect::new(Point2::new(0, 0), Size2::new(100, 100)),
        Default::default(),
    );

    let commands = scene.commands();

    assert_eq!(commands.len(), 3);
    assert!(matches!(commands[0], Command::Fill { .. }));
    assert!(matches!(commands[1], Command::Stroke { .. }));
    assert!(matches!(commands[2], Command::DrawText { .. }));
}

#[test]
fn empty_layer_still_pushes_and_pops() {
    let mut scene = Scene::<i64>::new();
    let layer = Layer {
        transform: Affine2::identity(),
        blend_mode: BlendMode::default(),
        clip: None,
        alpha: 1,
    };

    scene.with_layer(layer, |scene| scene);

    let commands = scene.commands();

    assert_eq!(commands.len(), 2);
    assert!(matches!(commands[0], Command::PushLayer(_)));
    assert!(matches!(commands[1], Command::PopLayer));
}

#[test]
fn layer_commands_nest_between_push_and_pop() {
    let mut scene = Scene::new();

    scene.fill(square(), Brush::Solid(Color::rgb(1i64, 0, 0)), FillStyle::default());

    let layer = Layer {
        transform: Affine2::identity(),
        blend_mode: BlendMode::default(),
        clip: Some(square()),
        alpha: 1,
    };

    scene.with_layer(layer, |mut scene| {
        scene.stroke(square(), Brush::Solid(Color::rgb(0i64, 0, 1)), StrokeStyle::default());

        scene
    });

    let commands = scene.commands();

    assert_eq!(commands.len(), 4);
    assert!(matches!(commands[0], Command::Fill { .. }));
    assert!(matches!(commands[1], Command::PushLayer(_)));
    assert!(matches!(commands[2], Command::Stroke { .. }));
    assert!(matches!(commands[3], Command::PopLayer));
}

#[test]
fn stroke_carries_its_style() {
    let mut scene = Scene::new();
    let style = StrokeStyle::<i64>::default();

    scene.stroke(square(), Brush::Solid(Color::rgb(0i64, 1, 0)), style);

    match &scene.commands()[0] {
        Command::Stroke { style, .. } => {
            assert_eq!(style.width, 1);
            assert_eq!(style.miter_limit, 4);
        },
        _ => panic!("expected a stroke command"),
    }
}
