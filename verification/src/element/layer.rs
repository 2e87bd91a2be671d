//! Layers and blending.

use vstd::prelude::*;

use super::Path;
use crate::math::Affine2;

verus! {

/// Describes a layer in a [`Scene`](crate::Scene).
///
/// A layer is a scoped region of a scene with its own transform, clip,
/// blend mode and opacity, delimited by push/pop commands.
#[derive(Debug, Clone, PartialEq)]
pub struct Layer<T> {
    /// The transform applied to the layer.
    pub transform: Affine2<T>,
    /// How to blend this layer with the ones below.
    pub blend_mode: BlendMode,
    /// A path to clip the layer to.
    pub clip: Option<Path<T>>,
    /// The opacity of the layer.
    pub alpha: T,
}

impl<T> Layer<T> {
    /// Well-formedness: the clip path, if any, is well-formed.
    pub open spec fn wf(self) -> bool {
        match self.clip {
            Some(path) => path.wf(),
            None => true,
        }
    }
}

/// How a layer's pixels combine with the pixels below it: a color mixing
/// function paired with a composition operator.
#[derive(Debug, Clone, Copy, PartialEq, Eq, Hash)]
pub struct BlendMode {
    /// The color mixing function.
    pub mix: Mix,
    /// The composition operator.
    pub compose: Compose,
}

/// Color mixing functions.
#[derive(Debug, Clone, Copy, PartialEq, Eq, Hash)]
pub enum Mix {
    Normal,
    Multiply,
    Screen,
    Overlay,
    Darken,
    Lighten,
    ColorDodge,
    ColorBurn,
    HardLight,
    SoftLight,
    Difference,
    Exclusion,
    Hue,
    Saturation,
    Color,
    Luminosity,
}

/// Porter-Duff composition operators.
#[derive(Debug, Clone, Copy, PartialEq, Eq, Hash)]
pub enum Compose {
    Clear,
    Copy,
    Dest,
    SrcOver,
    DestOver,
    SrcIn,
    DestIn,
    SrcOut,
    DestOut,
    SrcAtop,
    DestAtop,
    Xor,
    Plus,
    PlusLighter,
}

impl Default for Mix {
    /// Normal mixing.
    fn default() -> (r: Self)
        ensures
            r == Mix::Normal,
    {
        Mix::Normal
    }
}

impl Default for Compose {
    /// Source-over composition.
    fn default() -> (r: Self)
        ensures
            r == Compose::SrcOver,
    {
        Compose::SrcOver
    }
}

impl Default for BlendMode {
    /// Normal mixing with source-over composition.
    fn default() -> (r: Self)
        ensures
            r == (BlendMode { mix: Mix::Normal, compose: Compose::SrcOver }),
    {
        BlendMode { mix: Mix::Normal, compose: Compose::SrcOver }
    }
}

} // verus!
