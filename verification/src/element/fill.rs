//! Fill styles.

use vstd::prelude::*;

verus! {

/// Describes the style of a fill operation.
#[derive(Debug, Clone, Copy, PartialEq)]
pub struct FillStyle {
    /// How to fill the interior of shapes.
    pub rule: FillRule,
}

/// Describes how the interior of shapes are filled.
#[derive(Debug, Clone, Copy, PartialEq, Eq, Hash)]
pub enum FillRule {
    NonZero,
    EvenOdd,
}

impl Default for FillRule {
    /// The non-zero winding rule.
    fn default() -> (r: Self)
        ensures
            r == FillRule::NonZero,
    {
        FillRule::NonZero
    }
}

impl Default for FillStyle {
    /// A fill with the non-zero winding rule.
    fn default() -> (r: Self)
        ensures
            r == (FillStyle { rule: FillRule::NonZero }),
    {
        FillStyle { rule: FillRule::NonZero }
    }
}

} // verus!
