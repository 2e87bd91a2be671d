//! Stroke styles.

use vstd::prelude::*;

use crate::math::Scalar;

verus! {

/// Describes the style of a stroke operation.
#[derive(Debug, Clone, Copy, PartialEq)]
pub struct StrokeStyle<T> {
    /// The width of the stroke.
    pub width: T,
    /// How to join segments of a stroke.
    pub join: Join,
    /// How to draw the start of the stroke.
    pub start: Cap,
    /// How to draw the end of the stroke.
    pub end: Cap,
    /// The miter limit for [`Join::Miter`].
    pub miter_limit: T,
}

/// Describes how to join segments of a stroke.
#[derive(Debug, Clone, Copy, PartialEq, Eq, Hash)]
pub enum Join {
    /// A straight line connecting the segments.
    Bevel,
    /// The segments are extended to their natural intersection point.
    Miter,
    /// An arc between the segments.
    Round,
}

/// Describes how to draw the ends of a stroke.
#[derive(Debug, Clone, Copy, PartialEq, Eq, Hash)]
pub enum Cap {
    /// Flat cap.
    Butt,
    /// Square cap with dimensions equal to half the stroke width.
    Square,
    /// Rounded cap with radius equal to half the stroke width.
    Round,
}

impl Default for Join {
    /// Round joins.
    fn default() -> (r: Self)
        ensures
            r == Join::Round,
    {
        Join::Round
    }
}

impl Default for Cap {
    /// Round caps.
    fn default() -> (r: Self)
        ensures
            r == Cap::Round,
    {
        Cap::Round
    }
}

impl<T: Scalar> Default for StrokeStyle<T> {
    /// A stroke of width one with round joins and caps and a miter limit of
    /// four.
    fn default() -> (r: Self)
        ensures
            r.width.lift() == 1,
            r.join == Join::Round,
            r.start == Cap::Round,
            r.end == Cap::Round,
            r.miter_limit.lift() == 4,
    {
        StrokeStyle {
            width: T::from_small(1),
            join: Join::Round,
            start: Cap::Round,
            end: Cap::Round,
            miter_limit: T::from_small(4),
        }
    }
}

} // verus!
