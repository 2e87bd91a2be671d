//! Operations on [`Size2`].

use vstd::prelude::*;

use super::{Infinity, Max, Min, NegOne, One, Size2, Vec2, Zero};

verus! {

impl<T> Size2<T> {
    /// Returns a new size for the given width and height.
    pub fn new(w: T, h: T) -> (r: Self)
        ensures
            r == (Size2 { w, h }),
    {
        Size2 { w, h }
    }

    /// Returns a size with the width and height set to `v`.
    pub fn splat(v: T) -> (r: Self) where T: Copy
        ensures
            r == (Size2 { w: v, h: v }),
    {
        Size2 { w: v, h: v }
    }

    /// Returns a [`Vec2`] for this size.
    pub fn to_vec(self) -> (r: Vec2<T>)
        ensures
            r == (Vec2 { x: self.w, y: self.h }),
    {
        let Size2 { w, h } = self;

        Vec2 { x: w, y: h }
    }

    /// Returns this size with a new width.
    pub fn with_w(self, w: T) -> (r: Self)
        ensures
            r == (Size2 { w, h: self.h }),
    {
        Size2 { w, h: self.h }
    }

    /// Returns this size with a new height.
    pub fn with_h(self, h: T) -> (r: Self)
        ensures
            r == (Size2 { w: self.w, h }),
    {
        Size2 { w: self.w, h }
    }

    /// Maps the components of this size to another.
    pub fn map<U, F: Fn(T) -> U>(self, f: F) -> (r: Size2<U>)
        requires
            call_requires(f, (self.w,)),
            call_requires(f, (self.h,)),
        ensures
            call_ensures(f, (self.w,), r.w),
            call_ensures(f, (self.h,), r.h),
    {
        let Size2 { w, h } = self;

        Size2 { w: f(w), h: f(h) }
    }

    /// Returns this size with a function called on its width.
    pub fn map_w<F: FnOnce(T) -> T>(self, f: F) -> (r: Self)
        requires
            call_requires(f, (self.w,)),
        ensures
            call_ensures(f, (self.w,), r.w),
            r.h == self.h,
    {
        let Size2 { w, h } = self;

        Size2 { w: f(w), h }
    }

    /// Returns this size with a function called on its height.
    pub fn map_h<F: FnOnce(T) -> T>(self, f: F) -> (r: Self)
        requires
            call_requires(f, (self.h,)),
        ensures
            call_ensures(f, (self.h,), r.h),
            r.w == self.w,
    {
        let Size2 { w, h } = self;

        Size2 { w, h: f(h) }
    }

    /// Componentwise pairing, at the specification level.
    pub open spec fn spec_zip<U>(self, other: Size2<U>) -> Size2<(T, U)> {
        Size2 { w: (self.w, other.w), h: (self.h, other.h) }
    }

    /// Zips together the width and height of this size and another.
    ///
    /// To separate back into two sizes, see [`Size2::unzip`].
    pub fn zip<U>(self, other: Size2<U>) -> (r: Size2<(T, U)>)
        ensures
            r == self.spec_zip(other),
    {
        Size2 { w: (self.w, other.w), h: (self.h, other.h) }
    }
}

impl<T, U> Size2<(T, U)> {
    /// Componentwise unpairing, at the specification level.
    pub open spec fn spec_unzip(self) -> (Size2<T>, Size2<U>) {
        (Size2 { w: self.w.0, h: self.h.0 }, Size2 { w: self.w.1, h: self.h.1 })
    }

    /// Unzips the pairs into two sizes.
    pub fn unzip(self) -> (r: (Size2<T>, Size2<U>))
        ensures
            r == self.spec_unzip(),
    {
        let Size2 { w: (w_t, w_u), h: (h_t, h_u) } = self;

        (Size2 { w: w_t, h: h_t }, Size2 { w: w_u, h: h_u })
    }
}

/// Law: zipping two sizes and unzipping the result gives back exactly the
/// two sizes.
pub proof fn lemma_size2_zip_unzip<T, U>(v: Size2<T>, w: Size2<U>)
    ensures
        v.spec_zip(w).spec_unzip() == (v, w),
{
}

impl<T: Zero> Zero for Size2<T> {
    open spec fn spec_zero() -> Size2<T> {
        Size2 { w: T::spec_zero(), h: T::spec_zero() }
    }

    fn zero() -> Size2<T> {
        Size2 { w: T::zero(), h: T::zero() }
    }
}

impl<T: One> One for Size2<T> {
    open spec fn spec_one() -> Size2<T> {
        Size2 { w: T::spec_one(), h: T::spec_one() }
    }

    fn one() -> Size2<T> {
        Size2 { w: T::one(), h: T::one() }
    }
}

impl<T: NegOne> NegOne for Size2<T> {
    open spec fn spec_neg_one() -> Size2<T> {
        Size2 { w: T::spec_neg_one(), h: T::spec_neg_one() }
    }

    fn neg_one() -> Size2<T> {
        Size2 { w: T::neg_one(), h: T::neg_one() }
    }
}

impl<T: Min> Min for Size2<T> {
    open spec fn spec_min() -> Size2<T> {
        Size2 { w: T::spec_min(), h: T::spec_min() }
    }

    fn min_value() -> Size2<T> {
        Size2 { w: T::min_value(), h: T::min_value() }
    }
}

impl<T: Max> Max for Size2<T> {
    open spec fn spec_max() -> Size2<T> {
        Size2 { w: T::spec_max(), h: T::spec_max() }
    }

    fn max_value() -> Size2<T> {
        Size2 { w: T::max_value(), h: T::max_value() }
    }
}

impl<T: Infinity> Infinity for Size2<T> {
    fn infinity() -> Size2<T> {
        Size2 { w: T::infinity(), h: T::infinity() }
    }
}

} // verus!
