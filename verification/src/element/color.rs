//! Colors.

use vstd::prelude::*;

use crate::math::{One, Zero};

verus! {

/// An sRGBA color.
///
/// Components are stored as given: no premultiplication and no gamut
/// clamping; out-of-range values pass through uninterpreted.
#[derive(Debug, Clone, Copy, PartialEq, PartialOrd)]
pub struct Color<T> {
    pub r: T,
    pub g: T,
    pub b: T,
    pub a: T,
}

impl<T> Color<T> {
    /// Creates a color from `rgba` components.
    pub fn rgba(r: T, g: T, b: T, a: T) -> (c: Self)
        ensures
            c == (Color { r, g, b, a }),
    {
        Color { r, g, b, a }
    }
}

impl<T: Zero + One> Color<T> {
    /// Creates an opaque color from `rgb` components.
    pub fn rgb(r: T, g: T, b: T) -> (c: Self)
        ensures
            c == (Color { r, g, b, a: T::spec_one() }),
    {
        Color { r, g, b, a: T::one() }
    }

    /// Opaque black.
    pub fn black() -> (c: Self)
        ensures
            c == (Color {
                r: T::spec_zero(),
                g: T::spec_zero(),
                b: T::spec_zero(),
                a: T::spec_one(),
            }),
    {
        Color::rgb(T::zero(), T::zero(), T::zero())
    }

    /// Opaque blue.
    pub fn blue() -> (c: Self)
        ensures
            c == (Color {
                r: T::spec_zero(),
                g: T::spec_zero(),
                b: T::spec_one(),
                a: T::spec_one(),
            }),
    {
        Color::rgb(T::zero(), T::zero(), T::one())
    }

    /// Opaque green.
    pub fn green() -> (c: Self)
        ensures
            c == (Color {
                r: T::spec_zero(),
                g: T::spec_one(),
                b: T::spec_zero(),
                a: T::spec_one(),
            }),
    {
        Color::rgb(T::zero(), T::one(), T::zero())
    }

    /// Opaque red.
    pub fn red() -> (c: Self)
        ensures
            c == (Color {
                r: T::spec_one(),
                g: T::spec_zero(),
                b: T::spec_zero(),
                a: T::spec_one(),
            }),
    {
        Color::rgb(T::one(), T::zero(), T::zero())
    }

    /// Fully transparent black.
    pub fn transparent() -> (c: Self)
        ensures
            c == (Color {
                r: T::spec_zero(),
                g: T::spec_zero(),
                b: T::spec_zero(),
                a: T::spec_zero(),
            }),
    {
        Color::rgba(T::zero(), T::zero(), T::zero(), T::zero())
    }

    /// Opaque white.
    pub fn white() -> (c: Self)
        ensures
            c == (Color {
                r: T::spec_one(),
                g: T::spec_one(),
                b: T::spec_one(),
                a: T::spec_one(),
            }),
    {
        Color::rgb(T::one(), T::one(), T::one())
    }
}

} // verus!
