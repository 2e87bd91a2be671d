//! Operations on [`Point2`].

use vstd::prelude::*;

use super::{Infinity, Max, Min, NegOne, One, Point2, Vec2, Zero};

verus! {

impl<T> Point2<T> {
    /// Returns a point at the given `x` and `y`.
    pub fn new(x: T, y: T) -> (r: Self)
        ensures
            r == (Point2 { x, y }),
    {
        Point2 { x, y }
    }

    /// Returns a point with `x` and `y` set to `v`.
    pub fn splat(v: T) -> (r: Self) where T: Copy
        ensures
            r == (Point2 { x: v, y: v }),
    {
        Point2 { x: v, y: v }
    }

    /// Returns a [`Vec2`] for this point.
    pub fn to_vec(self) -> (r: Vec2<T>)
        ensures
            r == (Vec2 { x: self.x, y: self.y }),
    {
        let Point2 { x, y } = self;

        Vec2 { x, y }
    }

    /// Returns this point with a new `x`.
    pub fn with_x(self, x: T) -> (r: Self)
        ensures
            r == (Point2 { x, y: self.y }),
    {
        Point2 { x, y: self.y }
    }

    /// Returns this point with a new `y`.
    pub fn with_y(self, y: T) -> (r: Self)
        ensures
            r == (Point2 { x: self.x, y }),
    {
        Point2 { x: self.x, y }
    }

    /// Maps each component of this point to another.
    pub fn map<U, F: Fn(T) -> U>(self, f: F) -> (r: Point2<U>)
        requires
            call_requires(f, (self.x,)),
            call_requires(f, (self.y,)),
        ensures
            call_ensures(f, (self.x,), r.x),
            call_ensures(f, (self.y,), r.y),
    {
        let Point2 { x, y } = self;

        Point2 { x: f(x), y: f(y) }
    }

    /// Returns this point with a function called on its `x`.
    pub fn map_x<F: FnOnce(T) -> T>(self, f: F) -> (r: Self)
        requires
            call_requires(f, (self.x,)),
        ensures
            call_ensures(f, (self.x,), r.x),
            r.y == self.y,
    {
        let Point2 { x, y } = self;

        Point2 { x: f(x), y }
    }

    /// Returns this point with a function called on its `y`.
    pub fn map_y<F: FnOnce(T) -> T>(self, f: F) -> (r: Self)
        requires
            call_requires(f, (self.y,)),
        ensures
            call_ensures(f, (self.y,), r.y),
            r.x == self.x,
    {
        let Point2 { x, y } = self;

        Point2 { x, y: f(y) }
    }

    /// Componentwise pairing, at the specification level.
    pub open spec fn spec_zip<U>(self, other: Point2<U>) -> Point2<(T, U)> {
        Point2 { x: (self.x, other.x), y: (self.y, other.y) }
    }

    /// Zips together each component of this point with another.
    ///
    /// To separate back into 2 points, see [`Point2::unzip`].
    pub fn zip<U>(self, other: Point2<U>) -> (r: Point2<(T, U)>)
        ensures
            r == self.spec_zip(other),
    {
        Point2 { x: (self.x, other.x), y: (self.y, other.y) }
    }
}

impl<T, U> Point2<(T, U)> {
    /// Componentwise unpairing, at the specification level.
    pub open spec fn spec_unzip(self) -> (Point2<T>, Point2<U>) {
        (Point2 { x: self.x.0, y: self.y.0 }, Point2 { x: self.x.1, y: self.y.1 })
    }

    /// Unzip each component in this point.
    pub fn unzip(self) -> (r: (Point2<T>, Point2<U>))
        ensures
            r == self.spec_unzip(),
    {
        let Point2 { x: (x_t, x_u), y: (y_t, y_u) } = self;

        (Point2 { x: x_t, y: y_t }, Point2 { x: x_u, y: y_u })
    }
}

/// Law: zipping two points and unzipping the result gives back exactly the
/// two points.
pub proof fn lemma_point2_zip_unzip<T, U>(v: Point2<T>, w: Point2<U>)
    ensures
        v.spec_zip(w).spec_unzip() == (v, w),
{
}

impl<T: Zero> Zero for Point2<T> {
    open spec fn spec_zero() -> Point2<T> {
        Point2 { x: T::spec_zero(), y: T::spec_zero() }
    }

    fn zero() -> Point2<T> {
        Point2 { x: T::zero(), y: T::zero() }
    }
}

impl<T: One> One for Point2<T> {
    open spec fn spec_one() -> Point2<T> {
        Point2 { x: T::spec_one(), y: T::spec_one() }
    }

    fn one() -> Point2<T> {
        Point2 { x: T::one(), y: T::one() }
    }
}

impl<T: NegOne> NegOne for Point2<T> {
    open spec fn spec_neg_one() -> Point2<T> {
        Point2 { x: T::spec_neg_one(), y: T::spec_neg_one() }
    }

    fn neg_one() -> Point2<T> {
        Point2 { x: T::neg_one(), y: T::neg_one() }
    }
}

impl<T: Min> Min for Point2<T> {
    open spec fn spec_min() -> Point2<T> {
        Point2 { x: T::spec_min(), y: T::spec_min() }
    }

    fn min_value() -> Point2<T> {
        Point2 { x: T::min_value(), y: T::min_value() }
    }
}

impl<T: Max> Max for Point2<T> {
    open spec fn spec_max() -> Point2<T> {
        Point2 { x: T::spec_max(), y: T::spec_max() }
    }

    fn max_value() -> Point2<T> {
        Point2 { x: T::max_value(), y: T::max_value() }
    }
}

impl<T: Infinity> Infinity for Point2<T> {
    fn infinity() -> Point2<T> {
        Point2 { x: T::infinity(), y: T::infinity() }
    }
}

} // verus!
