//! Generic 2D math primitives: vectors, points, sizes, matrices, affine
//! transforms and rectangles, all generic over a scalar type.
//!
//! The scalar capability traits ([`Zero`], [`One`], [`NegOne`], [`Min`],
//! [`Max`], [`Infinity`], [`Trig`], [`Scalar`]) live in [`num`].

pub mod affine2;
pub mod fmt;
pub mod mat2;
pub mod num;
pub mod point2;
pub mod rect;
pub mod size2;
pub mod vec2;

pub use num::{Infinity, Max, Min, NegOne, One, Scalar, Trig, Zero};

use vstd::prelude::*;

verus! {

/// A vector with 2 components.
#[derive(Debug, Default, Clone, Copy, PartialEq, Eq, PartialOrd, Ord, Hash)]
pub struct Vec2<T> {
    pub x: T,
    pub y: T,
}

/// A 2x2 column-wise matrix.
#[derive(Debug, Clone, Copy, PartialEq, Eq, PartialOrd, Ord, Hash)]
pub struct Mat2<T> {
    pub x: Vec2<T>,
    pub y: Vec2<T>,
}

/// A 2d affine transform, `p' = transform * p + translation`.
#[derive(Debug, Clone, Copy, PartialEq, Eq, PartialOrd, Ord, Hash)]
pub struct Affine2<T> {
    pub transform: Mat2<T>,
    pub translation: Vec2<T>,
}

/// A point in 2 dimensions.
#[derive(Debug, Default, Clone, Copy, PartialEq, Eq, PartialOrd, Ord, Hash)]
pub struct Point2<T> {
    pub x: T,
    pub y: T,
}

/// A size in 2 dimensions.
#[derive(Debug, Default, Clone, Copy, PartialEq, Eq, PartialOrd, Ord, Hash)]
pub struct Size2<T> {
    pub w: T,
    pub h: T,
}

/// A rectangle defined by its origin and size.
///
/// The `y` axis grows downward (screen convention): `bottom()` is
/// `origin.y + size.h`.
#[derive(Debug, Default, Clone, Copy, PartialEq, Eq, PartialOrd, Ord, Hash)]
pub struct Rect<T> {
    /// The upper-left corner of the rectangle.
    pub origin: Point2<T>,
    /// The width and height of the rectangle (`y`-down).
    pub size: Size2<T>,
}

} // verus!
