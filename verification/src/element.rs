//! Types used in drawing.

pub mod brush;
pub mod color;
pub mod fill;
pub mod layer;
pub mod path;
pub mod source;
pub mod stroke;
pub mod text;

pub use brush::{Brush, ColorStop, Extend, LinearGradient};
pub use color::Color;
pub use fill::{FillRule, FillStyle};
pub use layer::{BlendMode, Compose, Layer, Mix};
pub use path::{Path, PathBuilder, PathElement, PathElements, Verb};
pub use source::{Source, SourceRef, Span};
pub use stroke::{Cap, Join, StrokeStyle};
pub use text::{Font, FontFamily, FontStyle, FontWeight, TextAlignment, TextStyle};
