//! Operations on [`Rect`].

use vstd::prelude::*;

use super::{Max, Min, Point2, Rect, Scalar, Size2, Vec2, Zero};

verus! {

impl<T> Rect<T> {
    /// Returns a rectangle from its upper-left point and size (`x` -> right,
    /// `y` -> down).
    pub fn new(origin: Point2<T>, size: Size2<T>) -> (r: Self)
        ensures
            r == (Rect { origin, size }),
    {
        Rect { origin, size }
    }

    /// Returns a rectangle with zero size at an origin.
    pub fn from_origin(origin: Point2<T>) -> (r: Self) where T: Zero
        ensures
            r == (Rect { origin, size: Size2::<T>::spec_zero() }),
    {
        Rect { origin, size: Size2::zero() }
    }

    /// Returns a rectangle at the origin with a given size.
    pub fn from_size(size: Size2<T>) -> (r: Self) where T: Zero
        ensures
            r == (Rect { origin: Point2::<T>::spec_zero(), size }),
    {
        Rect { origin: Point2::zero(), size }
    }

    /// Returns `self` with a new origin.
    pub fn with_origin(self, origin: Point2<T>) -> (r: Self)
        ensures
            r == (Rect { origin, size: self.size }),
    {
        Rect { origin, size: self.size }
    }

    /// Returns `self` with a new size.
    pub fn with_size(self, size: Size2<T>) -> (r: Self)
        ensures
            r == (Rect { origin: self.origin, size }),
    {
        Rect { origin: self.origin, size }
    }

    /// Map each scalar in this rectangle.
    pub fn map<U, F: Fn(T) -> U>(self, f: F) -> (r: Rect<U>)
        requires
            call_requires(f, (self.origin.x,)),
            call_requires(f, (self.origin.y,)),
            call_requires(f, (self.size.w,)),
            call_requires(f, (self.size.h,)),
        ensures
            call_ensures(f, (self.origin.x,), r.origin.x),
            call_ensures(f, (self.origin.y,), r.origin.y),
            call_ensures(f, (self.size.w,), r.size.w),
            call_ensures(f, (self.size.h,), r.size.h),
    {
        let Rect { origin: Point2 { x, y }, size: Size2 { w, h } } = self;

        Rect {
            origin: Point2 { x: f(x), y: f(y) },
            size: Size2 { w: f(w), h: f(h) },
        }
    }

    /// Returns a rectangle with a function called on its origin.
    pub fn map_origin<F: FnOnce(Point2<T>) -> Point2<T>>(self, f: F) -> (r: Self)
        requires
            call_requires(f, (self.origin,)),
        ensures
            call_ensures(f, (self.origin,), r.origin),
            r.size == self.size,
    {
        let Rect { origin, size } = self;

        Rect { origin: f(origin), size }
    }

    /// Returns a rectangle with a function called on its size.
    pub fn map_size<F: FnOnce(Size2<T>) -> Size2<T>>(self, f: F) -> (r: Self)
        requires
            call_requires(f, (self.size,)),
        ensures
            call_ensures(f, (self.size,), r.size),
            r.origin == self.origin,
    {
        let Rect { origin, size } = self;

        Rect { origin, size: f(size) }
    }
}

impl<T: Scalar> Rect<T> {
    /// The left edge, as the mathematical value it stands for.
    pub open spec fn spec_left(self) -> int {
        self.origin.x.lift()
    }

    /// The right edge, as the mathematical value it stands for.
    pub open spec fn spec_right(self) -> int {
        self.origin.x.lift() + self.size.w.lift()
    }

    /// The top edge, as the mathematical value it stands for.
    pub open spec fn spec_top(self) -> int {
        self.origin.y.lift()
    }

    /// The bottom edge, as the mathematical value it stands for.
    pub open spec fn spec_bottom(self) -> int {
        self.origin.y.lift() + self.size.h.lift()
    }

    /// Returns the left edge of this rectangle.
    pub fn left(self) -> (r: T)
        ensures
            r.lift() == self.spec_left(),
    {
        self.origin.x
    }

    /// Returns the right edge of this rectangle.
    pub fn right(self) -> (r: T)
        requires
            T::fits(self.spec_right()),
        ensures
            r.lift() == self.spec_right(),
    {
        self.origin.x.plus(self.size.w)
    }

    /// Returns the top edge of this rectangle.
    pub fn top(self) -> (r: T)
        ensures
            r.lift() == self.spec_top(),
    {
        self.origin.y
    }

    /// Returns the bottom edge of this rectangle.
    pub fn bottom(self) -> (r: T)
        requires
            T::fits(self.spec_bottom()),
        ensures
            r.lift() == self.spec_bottom(),
    {
        self.origin.y.plus(self.size.h)
    }

    /// Returns the upper-left corner of this rectangle.
    pub fn top_left(self) -> (r: Point2<T>)
        ensures
            r.x.lift() == self.spec_left(),
            r.y.lift() == self.spec_top(),
    {
        Point2 { x: self.left(), y: self.top() }
    }

    /// Returns the upper-right corner of this rectangle.
    pub fn top_right(self) -> (r: Point2<T>)
        requires
            T::fits(self.spec_right()),
        ensures
            r.x.lift() == self.spec_right(),
            r.y.lift() == self.spec_top(),
    {
        Point2 { x: self.right(), y: self.top() }
    }

    /// Returns the lower-left corner of this rectangle.
    pub fn bottom_left(self) -> (r: Point2<T>)
        requires
            T::fits(self.spec_bottom()),
        ensures
            r.x.lift() == self.spec_left(),
            r.y.lift() == self.spec_bottom(),
    {
        Point2 { x: self.left(), y: self.bottom() }
    }

    /// Returns the lower-right corner of this rectangle.
    pub fn bottom_right(self) -> (r: Point2<T>)
        requires
            T::fits(self.spec_right()),
            T::fits(self.spec_bottom()),
        ensures
            r.x.lift() == self.spec_right(),
            r.y.lift() == self.spec_bottom(),
    {
        Point2 { x: self.right(), y: self.bottom() }
    }

    /// Returns an array of the corners of this rectangle
    /// ([`Rect::top_left`], [`Rect::top_right`], [`Rect::bottom_left`], and
    /// [`Rect::bottom_right`]).
    pub fn corners(self) -> (r: [Point2<T>; 4])
        requires
            T::fits(self.spec_right()),
            T::fits(self.spec_bottom()),
        ensures
            r@.len() == 4,
            r@[0].x.lift() == self.spec_left() && r@[0].y.lift() == self.spec_top(),
            r@[1].x.lift() == self.spec_right() && r@[1].y.lift() == self.spec_top(),
            r@[2].x.lift() == self.spec_left() && r@[2].y.lift() == self.spec_bottom(),
            r@[3].x.lift() == self.spec_right() && r@[3].y.lift() == self.spec_bottom(),
    {
        [self.top_left(), self.top_right(), self.bottom_left(), self.bottom_right()]
    }

    /// Returns this rectangle after applying an inset to it.
    ///
    /// The origin moves inward by `insets` and the size shrinks by twice the
    /// inset on each axis. The caller must ensure every intermediate value is
    /// representable; in particular, for unsigned scalars the shrunken size
    /// must not go below zero.
    pub fn with_insets(self, insets: Vec2<T>) -> (r: Rect<T>)
        requires
            T::fits(self.origin.x.lift() + insets.x.lift()),
            T::fits(self.origin.y.lift() + insets.y.lift()),
            T::fits(insets.x.lift() + insets.x.lift()),
            T::fits(insets.y.lift() + insets.y.lift()),
            T::fits(self.size.w.lift() - (insets.x.lift() + insets.x.lift())),
            T::fits(self.size.h.lift() - (insets.y.lift() + insets.y.lift())),
        ensures
            r.origin.x.lift() == self.origin.x.lift() + insets.x.lift(),
            r.origin.y.lift() == self.origin.y.lift() + insets.y.lift(),
            r.size.w.lift() == self.size.w.lift() - (insets.x.lift() + insets.x.lift()),
            r.size.h.lift() == self.size.h.lift() - (insets.y.lift() + insets.y.lift()),
    {
        Rect {
            origin: Point2 {
                x: self.origin.x.plus(insets.x),
                y: self.origin.y.plus(insets.y),
            },
            size: Size2 {
                w: self.size.w.minus(insets.x.plus(insets.x)),
                h: self.size.h.minus(insets.y.plus(insets.y)),
            },
        }
    }

    /// Whether this rectangle fully contains `other`, at the specification
    /// level. All four edges are inclusive.
    pub open spec fn spec_contains(self, other: Self) -> bool {
        &&& other.spec_left() >= self.spec_left()
        &&& other.spec_right() <= self.spec_right()
        &&& other.spec_top() >= self.spec_top()
        &&& other.spec_bottom() <= self.spec_bottom()
    }

    /// Returns `true` if this rectangle fully contains `other`.
    pub fn contains(self, other: Self) -> (r: bool)
        requires
            T::fits(self.spec_right()),
            T::fits(self.spec_bottom()),
            T::fits(other.spec_right()),
            T::fits(other.spec_bottom()),
        ensures
            r == self.spec_contains(other),
    {
        self.left().at_most(other.left()) && other.right().at_most(self.right())
            && self.top().at_most(other.top()) && other.bottom().at_most(self.bottom())
    }

    /// Whether `point` is within the bounds of this rectangle, at the
    /// specification level. All four edges are inclusive.
    pub open spec fn spec_contains_point(self, point: Point2<T>) -> bool {
        &&& self.spec_left() <= point.x.lift() <= self.spec_right()
        &&& self.spec_top() <= point.y.lift() <= self.spec_bottom()
    }

    /// Returns `true` if `point` is within the bounds of this rectangle.
    pub fn contains_point(self, point: Point2<T>) -> (r: bool)
        requires
            T::fits(self.spec_right()),
            T::fits(self.spec_bottom()),
        ensures
            r == self.spec_contains_point(point),
    {
        self.left().at_most(point.x) && point.x.at_most(self.right())
            && self.top().at_most(point.y) && point.y.at_most(self.bottom())
    }
}

/// Law: a rectangle at the origin with a non-negative size contains the zero
/// point.
pub proof fn lemma_from_size_contains_zero<T: Scalar>(size: Size2<T>)
    requires
        size.w.lift() >= 0,
        size.h.lift() >= 0,
    ensures
        (Rect { origin: Point2::<T>::spec_zero(), size })
            .spec_contains_point(Point2::<T>::spec_zero()),
{
    T::lemma_zero_one();
}

/// Law: every rectangle contains itself.
pub proof fn lemma_contains_self<T: Scalar>(rect: Rect<T>)
    ensures
        rect.spec_contains(rect),
{
}

impl<T: Zero> Zero for Rect<T> {
    open spec fn spec_zero() -> Rect<T> {
        Rect { origin: Point2::<T>::spec_zero(), size: Size2::<T>::spec_zero() }
    }

    fn zero() -> Rect<T> {
        Rect { origin: Point2::zero(), size: Size2::zero() }
    }
}

impl<T: Min + Max> Max for Rect<T> {
    /// A rectangle that encompasses the entire representable coordinate
    /// space: the origin at the minimum point, the size at the maximum.
    open spec fn spec_max() -> Rect<T> {
        Rect { origin: Point2::<T>::spec_min(), size: Size2::<T>::spec_max() }
    }

    fn max_value() -> Rect<T> {
        Rect { origin: Point2::min_value(), size: Size2::max_value() }
    }
}

} // verus!
