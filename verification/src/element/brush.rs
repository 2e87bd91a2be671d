//! Brushes: the pixel source of fill and stroke operations.

use vstd::prelude::*;

use super::Color;
use crate::math::{Point2, Zero};

verus! {

/// Source of pixels for a fill or stroke operation.
#[derive(Debug, Clone, PartialEq)]
pub enum Brush<T> {
    /// A solid color fill.
    Solid(Color<T>),
    /// Fill with a linear gradient.
    LinearGradient(LinearGradient<T>),
}

/// A linear gradient.
#[derive(Debug, Clone, PartialEq)]
pub struct LinearGradient<T> {
    /// The start of the gradient.
    pub start: Point2<T>,
    /// The end of the gradient.
    pub end: Point2<T>,
    /// How to extend the gradient to fit the painting area.
    pub extend: Extend,
    /// The colors in the gradient.
    pub stops: Vec<ColorStop<T>>,
}

/// A color stop in a gradient.
#[derive(Debug, Clone, Copy, PartialEq)]
pub struct ColorStop<T> {
    /// Offset into the gradient.
    pub offset: T,
    /// The color at the offset.
    pub color: Color<T>,
}

/// How a gradient is extended to fill its painting area.
#[derive(Debug, Clone, Copy, PartialEq, Eq, Hash)]
pub enum Extend {
    /// The edge colors continue past the edges.
    Pad,
    /// The gradient repeats.
    Repeat,
    /// The gradient repeats, mirrored on every repetition.
    Reflect,
}

impl<T> ColorStop<T> {
    /// Creates a new color stop from its offset and color.
    pub fn new(offset: T, color: Color<T>) -> (r: Self)
        ensures
            r == (ColorStop { offset, color }),
    {
        ColorStop { offset, color }
    }
}

impl Default for Extend {
    /// Pad extension.
    fn default() -> (r: Self)
        ensures
            r == Extend::Pad,
    {
        Extend::Pad
    }
}

impl<T: Zero> Default for LinearGradient<T> {
    /// A gradient from the zero point to the zero point, padded, with no
    /// stops.
    fn default() -> (r: Self)
        ensures
            r.start == Point2::<T>::spec_zero(),
            r.end == Point2::<T>::spec_zero(),
            r.extend == Extend::Pad,
            r.stops@.len() == 0,
    {
        LinearGradient {
            start: Point2::zero(),
            end: Point2::zero(),
            extend: Extend::Pad,
            stops: Vec::new(),
        }
    }
}

impl<T> From<Color<T>> for Brush<T> {
    fn from(color: Color<T>) -> Self {
        Brush::Solid(color)
    }
}

impl<T> vstd::std_specs::convert::FromSpecImpl<Color<T>> for Brush<T> {
    open spec fn obeys_from_spec() -> bool {
        true
    }

    open spec fn from_spec(color: Color<T>) -> Self {
        Brush::Solid(color)
    }
}

impl<T> From<LinearGradient<T>> for Brush<T> {
    fn from(linear_gradient: LinearGradient<T>) -> Self {
        Brush::LinearGradient(linear_gradient)
    }
}

impl<T> vstd::std_specs::convert::FromSpecImpl<LinearGradient<T>> for Brush<T> {
    open spec fn obeys_from_spec() -> bool {
        true
    }

    open spec fn from_spec(linear_gradient: LinearGradient<T>) -> Self {
        Brush::LinearGradient(linear_gradient)
    }
}

} // verus!
