//! Operations on [`Vec2`].

use vstd::prelude::*;

use super::{Infinity, Max, Min, NegOne, One, Trig, Vec2, Zero};

verus! {

impl<T> Vec2<T> {
    /// The vector as a pair, at the specification level.
    pub open spec fn spec_pair(self) -> (T, T) {
        (self.x, self.y)
    }

    /// Returns a vector with the given `x` and `y` components.
    pub fn new(x: T, y: T) -> (r: Self)
        ensures
            r == (Vec2 { x, y }),
    {
        Vec2 { x, y }
    }

    /// Returns a vector with the given `x` and zero for `y`.
    pub fn from_x(x: T) -> (r: Self) where T: Zero
        ensures
            r == (Vec2 { x, y: T::spec_zero() }),
    {
        Vec2 { x, y: T::zero() }
    }

    /// Returns a vector with the given `y` and zero for `x`.
    pub fn from_y(y: T) -> (r: Self) where T: Zero
        ensures
            r == (Vec2 { x: T::spec_zero(), y }),
    {
        Vec2 { x: T::zero(), y }
    }

    /// Returns a vector with `x` and `y` set to `v`.
    pub fn splat(v: T) -> (r: Self) where T: Copy
        ensures
            r == (Vec2 { x: v, y: v }),
    {
        Vec2 { x: v, y: v }
    }

    /// Returns this vector with a new `x`.
    pub fn with_x(self, x: T) -> (r: Self)
        ensures
            r == (Vec2 { x, y: self.y }),
    {
        Vec2 { x, y: self.y }
    }

    /// Returns this vector with a new `y`.
    pub fn with_y(self, y: T) -> (r: Self)
        ensures
            r == (Vec2 { x: self.x, y }),
    {
        Vec2 { x: self.x, y }
    }

    /// Maps each component in this vector to another.
    pub fn map<U, F: Fn(T) -> U>(self, f: F) -> (r: Vec2<U>)
        requires
            call_requires(f, (self.x,)),
            call_requires(f, (self.y,)),
        ensures
            call_ensures(f, (self.x,), r.x),
            call_ensures(f, (self.y,), r.y),
    {
        let Vec2 { x, y } = self;

        Vec2 { x: f(x), y: f(y) }
    }

    /// Returns this vector with a function called on its `x`.
    pub fn map_x<F: FnOnce(T) -> T>(self, f: F) -> (r: Self)
        requires
            call_requires(f, (self.x,)),
        ensures
            call_ensures(f, (self.x,), r.x),
            r.y == self.y,
    {
        let Vec2 { x, y } = self;

        Vec2 { x: f(x), y }
    }

    /// Returns this vector with a function called on its `y`.
    pub fn map_y<F: FnOnce(T) -> T>(self, f: F) -> (r: Self)
        requires
            call_requires(f, (self.y,)),
        ensures
            call_ensures(f, (self.y,), r.y),
            r.x == self.x,
    {
        let Vec2 { x, y } = self;

        Vec2 { x, y: f(y) }
    }

    /// Componentwise pairing, at the specification level.
    pub open spec fn spec_zip<U>(self, other: Vec2<U>) -> Vec2<(T, U)> {
        Vec2 { x: (self.x, other.x), y: (self.y, other.y) }
    }

    /// Zips together each component of this vector with another.
    ///
    /// To separate back into 2 vectors, see [`Vec2::unzip`].
    pub fn zip<U>(self, other: Vec2<U>) -> (r: Vec2<(T, U)>)
        ensures
            r == self.spec_zip(other),
    {
        Vec2 { x: (self.x, other.x), y: (self.y, other.y) }
    }
}

impl<T, U> Vec2<(T, U)> {
    /// Componentwise unpairing, at the specification level.
    pub open spec fn spec_unzip(self) -> (Vec2<T>, Vec2<U>) {
        (Vec2 { x: self.x.0, y: self.y.0 }, Vec2 { x: self.x.1, y: self.y.1 })
    }

    /// Unzip each component in this vector.
    pub fn unzip(self) -> (r: (Vec2<T>, Vec2<U>))
        ensures
            r == self.spec_unzip(),
    {
        let Vec2 { x: (x_t, x_u), y: (y_t, y_u) } = self;

        (Vec2 { x: x_t, y: y_t }, Vec2 { x: x_u, y: y_u })
    }
}

/// Law: zipping two vectors and unzipping the result gives back exactly the
/// two vectors.
pub proof fn lemma_vec2_zip_unzip<T, U>(v: Vec2<T>, w: Vec2<U>)
    ensures
        v.spec_zip(w).spec_unzip() == (v, w),
{
}

impl<T: Zero> Zero for Vec2<T> {
    open spec fn spec_zero() -> Vec2<T> {
        Vec2 { x: T::spec_zero(), y: T::spec_zero() }
    }

    fn zero() -> Vec2<T> {
        Vec2 { x: T::zero(), y: T::zero() }
    }
}

impl<T: One> One for Vec2<T> {
    open spec fn spec_one() -> Vec2<T> {
        Vec2 { x: T::spec_one(), y: T::spec_one() }
    }

    fn one() -> Vec2<T> {
        Vec2 { x: T::one(), y: T::one() }
    }
}

impl<T: NegOne> NegOne for Vec2<T> {
    open spec fn spec_neg_one() -> Vec2<T> {
        Vec2 { x: T::spec_neg_one(), y: T::spec_neg_one() }
    }

    fn neg_one() -> Vec2<T> {
        Vec2 { x: T::neg_one(), y: T::neg_one() }
    }
}

impl<T: Min> Min for Vec2<T> {
    open spec fn spec_min() -> Vec2<T> {
        Vec2 { x: T::spec_min(), y: T::spec_min() }
    }

    fn min_value() -> Vec2<T> {
        Vec2 { x: T::min_value(), y: T::min_value() }
    }
}

impl<T: Max> Max for Vec2<T> {
    open spec fn spec_max() -> Vec2<T> {
        Vec2 { x: T::spec_max(), y: T::spec_max() }
    }

    fn max_value() -> Vec2<T> {
        Vec2 { x: T::max_value(), y: T::max_value() }
    }
}

impl<T: Infinity> Infinity for Vec2<T> {
    fn infinity() -> Vec2<T> {
        Vec2 { x: T::infinity(), y: T::infinity() }
    }
}

impl<T: Trig> Trig for Vec2<T> {
    fn sin(self) -> Vec2<T> {
        Vec2 { x: self.x.sin(), y: self.y.sin() }
    }

    fn cos(self) -> Vec2<T> {
        Vec2 { x: self.x.cos(), y: self.y.cos() }
    }

    fn tan(self) -> Vec2<T> {
        Vec2 { x: self.x.tan(), y: self.y.tan() }
    }

    fn sin_cos(self) -> (Vec2<T>, Vec2<T>) {
        let (x_sin, x_cos) = self.x.sin_cos();
        let (y_sin, y_cos) = self.y.sin_cos();

        (Vec2 { x: x_sin, y: y_sin }, Vec2 { x: x_cos, y: y_cos })
    }
}

} // verus!
