//! A retained-mode vector-graphics scene library.
//!
//! The API revolves around [`Scene`], an ordered, append-only sequence of
//! vector-graphics [`Command`]s (fill, stroke, text, layered composition)
//! that an external renderer replays in call order. Paths are built through
//! a verified state machine ([`element::PathBuilder`]) and the 2D math
//! primitives in [`math`] are generic over a scalar type.

pub mod element;
pub mod math;

use element::{Brush, FillStyle, Layer, Path, Source, StrokeStyle, TextStyle};
use math::Rect;
use vstd::prelude::*;

verus! {

/// A single operation in a [`Scene`].
#[derive(Debug, Clone)]
pub enum Command<T> {
    /// Fill the interior of a path.
    Fill { path: Path<T>, brush: Brush<T>, style: FillStyle },
    /// Stroke the outline of a path.
    Stroke { path: Path<T>, brush: Brush<T>, style: StrokeStyle<T> },
    /// Lay out and draw text within bounds.
    DrawText { source: Source<T>, bounds: Rect<T>, style: TextStyle<T> },
    /// Push a new layer onto the stack.
    PushLayer(Layer<T>),
    /// Pop the most recent layer off the stack.
    PopLayer,
}

/// Well-formedness of a single command: every path it carries is
/// well-formed.
pub open spec fn command_wf<T>(command: Command<T>) -> bool {
    match command {
        Command::Fill { path, brush, style } => path.wf(),
        Command::Stroke { path, brush, style } => path.wf(),
        Command::DrawText { source, bounds, style } => true,
        Command::PushLayer(layer) => layer.wf(),
        Command::PopLayer => true,
    }
}

/// A vector scene: a flat, ordered, replayable log of [`Command`]s.
///
/// Encoding calls are append-only and ordering-preserving: replay order
/// equals call order. Layer nesting is tracked only by command order; the
/// scene itself does not validate balance between
/// [`Command::PushLayer`] and [`Command::PopLayer`] — interpreting or
/// rejecting malformed nesting is the consuming renderer's responsibility.
#[derive(Debug, Clone)]
pub struct Scene<T> {
    commands: Vec<Command<T>>,
}

impl<T> Scene<T> {
    /// The recorded commands, in call order, at the specification level.
    pub closed spec fn spec_commands(self) -> Seq<Command<T>> {
        self.commands@
    }

    /// Well-formedness: every recorded command is well-formed.
    pub open spec fn wf(self) -> bool {
        forall|i: int|
            0 <= i < self.spec_commands().len() ==> command_wf(#[trigger] self.spec_commands()[i])
    }

    /// Creates a new empty scene.
    pub fn new() -> (r: Self)
        ensures
            r.wf(),
            r.spec_commands().len() == 0,
    {
        Scene { commands: Vec::new() }
    }

    /// Returns the commands in this scene, in call order.
    pub fn commands(&self) -> (r: &Vec<Command<T>>)
        ensures
            r@ == self.spec_commands(),
    {
        &self.commands
    }

    /// Encodes a fill operation.
    pub fn fill(&mut self, path: Path<T>, brush: Brush<T>, style: FillStyle)
        requires
            old(self).wf(),
            path.wf(),
        ensures
            final(self).wf(),
            final(self).spec_commands() == old(self).spec_commands().push(
                (Command::Fill { path, brush, style }),
            ),
    {
        self.commands.push(Command::Fill { path, brush, style });

        proof {
            assert forall|i: int|
                0 <= i < self.spec_commands().len() implies command_wf(
                #[trigger] self.spec_commands()[i],
            ) by {
                if i < old(self).spec_commands().len() {
                    assert(command_wf(old(self).spec_commands()[i]));
                }
            }
        }
    }

    /// Encodes a stroke operation.
    pub fn stroke(&mut self, path: Path<T>, brush: Brush<T>, style: StrokeStyle<T>)
        requires
            old(self).wf(),
            path.wf(),
        ensures
            final(self).wf(),
            final(self).spec_commands() == old(self).spec_commands().push(
                (Command::Stroke { path, brush, style }),
            ),
    {
        self.commands.push(Command::Stroke { path, brush, style });

        proof {
            assert forall|i: int|
                0 <= i < self.spec_commands().len() implies command_wf(
                #[trigger] self.spec_commands()[i],
            ) by {
                if i < old(self).spec_commands().len() {
                    assert(command_wf(old(self).spec_commands()[i]));
                }
            }
        }
    }

    /// Encodes text.
    pub fn draw_text(&mut self, source: Source<T>, bounds: Rect<T>, style: TextStyle<T>)
        requires
            old(self).wf(),
        ensures
            final(self).wf(),
            final(self).spec_commands() == old(self).spec_commands().push(
                (Command::DrawText { source, bounds, style }),
            ),
    {
        self.commands.push(Command::DrawText { source, bounds, style });

        proof {
            assert forall|i: int|
                0 <= i < self.spec_commands().len() implies command_wf(
                #[trigger] self.spec_commands()[i],
            ) by {
                if i < old(self).spec_commands().len() {
                    assert(command_wf(old(self).spec_commands()[i]));
                }
            }
        }
    }

    /// Encodes a new layer.
    ///
    /// A [`Command::PushLayer`] is recorded, the closure runs on the scene
    /// (commands it appends are nested in the layer), and a
    /// [`Command::PopLayer`] is recorded unconditionally afterwards — even
    /// when the closure records no commands at all.
    pub fn with_layer<F: FnOnce(Scene<T>) -> Scene<T>>(&mut self, layer: Layer<T>, f: F)
        requires
            old(self).wf(),
            layer.wf(),
            forall|s0: Scene<T>|
                s0.spec_commands() == old(self).spec_commands().push(
                    Command::PushLayer(layer),
                ) ==> call_requires(f, (s0,)),
            forall|s0: Scene<T>, s1: Scene<T>|
                s0.spec_commands() == old(self).spec_commands().push(Command::PushLayer(layer))
                    && call_ensures(f, (s0,), s1) ==> s1.wf(),
        ensures
            final(self).wf(),
            exists|s0: Scene<T>, s1: Scene<T>|
                s0.spec_commands() == old(self).spec_commands().push(Command::PushLayer(layer))
                    && #[trigger] call_ensures(f, (s0,), s1) && final(self).spec_commands()
                    == s1.spec_commands().push(Command::PopLayer),
    {
        self.commands.push(Command::PushLayer(layer));

        let mut scene = Scene { commands: Vec::new() };

        core::mem::swap(self, &mut scene);

        let mut scene = f(scene);

        let ghost mid = scene;

        proof {
            assert(mid.wf());
        }

        scene.commands.push(Command::PopLayer);

        core::mem::swap(self, &mut scene);

        proof {
            assert(self.spec_commands() == mid.spec_commands().push(Command::PopLayer));
            assert forall|i: int|
                0 <= i < self.spec_commands().len() implies command_wf(
                #[trigger] self.spec_commands()[i],
            ) by {
                if i < mid.spec_commands().len() {
                    assert(command_wf(mid.spec_commands()[i]));
                }
            }
        }
    }

    /// Clears all commands from the scene.
    ///
    /// Any state kept outside the scene, such as a caller's global
    /// transform, is untouched.
    pub fn clear(&mut self)
        ensures
            final(self).wf(),
            final(self).spec_commands().len() == 0,
    {
        self.commands.clear();
    }
}

impl<T> Default for Scene<T> {
    /// The empty scene.
    fn default() -> (r: Self)
        ensures
            r.wf(),
            r.spec_commands().len() == 0,
    {
        Scene::new()
    }
}

} // verus!
