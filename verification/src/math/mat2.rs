//! Operations on [`Mat2`].

use vstd::prelude::*;

use super::{Infinity, Mat2, Max, Min, NegOne, One, Trig, Vec2, Zero};

verus! {

impl<T> Mat2<T> {
    /// Returns a matrix for its columns.
    pub fn from_columns(x: Vec2<T>, y: Vec2<T>) -> (r: Self)
        ensures
            r == (Mat2 { x, y }),
    {
        Mat2 { x, y }
    }

    /// The scale matrix, at the specification level: `scale.x` and `scale.y`
    /// on the diagonal, zero elsewhere.
    pub open spec fn spec_from_scale(scale: Vec2<T>) -> Self where T: Zero {
        Mat2 {
            x: Vec2 { x: scale.x, y: T::spec_zero() },
            y: Vec2 { x: T::spec_zero(), y: scale.y },
        }
    }

    /// Returns a matrix that can scale vectors.
    pub fn from_scale(scale: Vec2<T>) -> (r: Self) where T: Zero
        ensures
            r == Self::spec_from_scale(scale),
    {
        Mat2 { x: Vec2::from_x(scale.x), y: Vec2::from_y(scale.y) }
    }

    /// Returns a matrix with columns set to `v`.
    pub fn splat(v: Vec2<T>) -> (r: Self) where T: Copy
        ensures
            r == (Mat2 { x: v, y: v }),
    {
        Mat2 { x: v, y: v }
    }

    /// Returns this matrix with a new `x` column.
    pub fn with_x(self, x: Vec2<T>) -> (r: Self)
        ensures
            r == (Mat2 { x, y: self.y }),
    {
        Mat2 { x, y: self.y }
    }

    /// Returns this matrix with a new `y` column.
    pub fn with_y(self, y: Vec2<T>) -> (r: Self)
        ensures
            r == (Mat2 { x: self.x, y }),
    {
        Mat2 { x: self.x, y }
    }

    /// Maps the columns of the matrix to another.
    pub fn map<U, F: Fn(Vec2<T>) -> Vec2<U>>(self, f: F) -> (r: Mat2<U>)
        requires
            call_requires(f, (self.x,)),
            call_requires(f, (self.y,)),
        ensures
            call_ensures(f, (self.x,), r.x),
            call_ensures(f, (self.y,), r.y),
    {
        let Mat2 { x, y } = self;

        Mat2 { x: f(x), y: f(y) }
    }

    /// Returns this matrix with a function called on its `x` column.
    pub fn map_x<F: FnOnce(Vec2<T>) -> Vec2<T>>(self, f: F) -> (r: Self)
        requires
            call_requires(f, (self.x,)),
        ensures
            call_ensures(f, (self.x,), r.x),
            r.y == self.y,
    {
        let Mat2 { x, y } = self;

        Mat2 { x: f(x), y }
    }

    /// Returns this matrix with a function called on its `y` column.
    pub fn map_y<F: FnOnce(Vec2<T>) -> Vec2<T>>(self, f: F) -> (r: Self)
        requires
            call_requires(f, (self.y,)),
        ensures
            call_ensures(f, (self.y,), r.y),
            r.x == self.x,
    {
        let Mat2 { x, y } = self;

        Mat2 { x, y: f(y) }
    }

    /// Columnwise pairing, at the specification level.
    pub open spec fn spec_zip<U>(self, other: Mat2<U>) -> Mat2<(T, U)> {
        Mat2 { x: self.x.spec_zip(other.x), y: self.y.spec_zip(other.y) }
    }

    /// Zips together each column of this matrix and another.
    ///
    /// To separate back into two matrices, see [`Mat2::unzip`].
    pub fn zip<U>(self, other: Mat2<U>) -> (r: Mat2<(T, U)>)
        ensures
            r == self.spec_zip(other),
    {
        Mat2 { x: self.x.zip(other.x), y: self.y.zip(other.y) }
    }
}

impl<T, U> Mat2<(T, U)> {
    /// Columnwise unpairing, at the specification level.
    pub open spec fn spec_unzip(self) -> (Mat2<T>, Mat2<U>) {
        (
            Mat2 { x: self.x.spec_unzip().0, y: self.y.spec_unzip().0 },
            Mat2 { x: self.x.spec_unzip().1, y: self.y.spec_unzip().1 },
        )
    }

    /// Unzips this matrix back into two matrices.
    pub fn unzip(self) -> (r: (Mat2<T>, Mat2<U>))
        ensures
            r == self.spec_unzip(),
    {
        let (x_t, x_u) = self.x.unzip();
        let (y_t, y_u) = self.y.unzip();

        (Mat2 { x: x_t, y: y_t }, Mat2 { x: x_u, y: y_u })
    }
}

/// Law: zipping two matrices and unzipping the result gives back exactly
/// the two matrices.
pub proof fn lemma_mat2_zip_unzip<T, U>(m: Mat2<T>, n: Mat2<U>)
    ensures
        m.spec_zip(n).spec_unzip() == (m, n),
{
}

impl<T: Zero + One> Mat2<T> {
    /// The identity matrix, at the specification level.
    pub open spec fn spec_identity() -> Self {
        Mat2 {
            x: Vec2 { x: T::spec_one(), y: T::spec_zero() },
            y: Vec2 { x: T::spec_zero(), y: T::spec_one() },
        }
    }

    /// Returns the identity matrix.
    pub fn identity() -> (r: Self)
        ensures
            r == Self::spec_identity(),
    {
        Mat2 {
            x: Vec2 { x: T::one(), y: T::zero() },
            y: Vec2 { x: T::zero(), y: T::one() },
        }
    }
}

/// Law: scaling by one on both axes is the identity matrix.
pub proof fn lemma_mat2_from_scale_one<T: Zero + One>()
    ensures
        Mat2::<T>::spec_from_scale(Vec2 { x: T::spec_one(), y: T::spec_one() })
            == Mat2::<T>::spec_identity(),
{
}

impl<T: Zero> Zero for Mat2<T> {
    open spec fn spec_zero() -> Mat2<T> {
        Mat2 { x: Vec2::<T>::spec_zero(), y: Vec2::<T>::spec_zero() }
    }

    fn zero() -> Mat2<T> {
        Mat2 { x: Vec2::<T>::zero(), y: Vec2::<T>::zero() }
    }
}

impl<T: One> One for Mat2<T> {
    open spec fn spec_one() -> Mat2<T> {
        Mat2 { x: Vec2::<T>::spec_one(), y: Vec2::<T>::spec_one() }
    }

    fn one() -> Mat2<T> {
        Mat2 { x: Vec2::<T>::one(), y: Vec2::<T>::one() }
    }
}

impl<T: NegOne> NegOne for Mat2<T> {
    open spec fn spec_neg_one() -> Mat2<T> {
        Mat2 { x: Vec2::<T>::spec_neg_one(), y: Vec2::<T>::spec_neg_one() }
    }

    fn neg_one() -> Mat2<T> {
        Mat2 { x: Vec2::<T>::neg_one(), y: Vec2::<T>::neg_one() }
    }
}

impl<T: Min> Min for Mat2<T> {
    open spec fn spec_min() -> Mat2<T> {
        Mat2 { x: Vec2::<T>::spec_min(), y: Vec2::<T>::spec_min() }
    }

    fn min_value() -> Mat2<T> {
        Mat2 { x: Vec2::<T>::min_value(), y: Vec2::<T>::min_value() }
    }
}

impl<T: Max> Max for Mat2<T> {
    open spec fn spec_max() -> Mat2<T> {
        Mat2 { x: Vec2::<T>::spec_max(), y: Vec2::<T>::spec_max() }
    }

    fn max_value() -> Mat2<T> {
        Mat2 { x: Vec2::<T>::max_value(), y: Vec2::<T>::max_value() }
    }
}

impl<T: Infinity> Infinity for Mat2<T> {
    fn infinity() -> Mat2<T> {
        Mat2 { x: Vec2::<T>::infinity(), y: Vec2::<T>::infinity() }
    }
}

impl<T: Trig> Trig for Mat2<T> {
    fn sin(self) -> Mat2<T> {
        Mat2 { x: self.x.sin(), y: self.y.sin() }
    }

    fn cos(self) -> Mat2<T> {
        Mat2 { x: self.x.cos(), y: self.y.cos() }
    }

    fn tan(self) -> Mat2<T> {
        Mat2 { x: self.x.tan(), y: self.y.tan() }
    }

    fn sin_cos(self) -> (Mat2<T>, Mat2<T>) {
        let (x_sin, x_cos) = self.x.sin_cos();
        let (y_sin, y_cos) = self.y.sin_cos();

        (Mat2 { x: x_sin, y: y_sin }, Mat2 { x: x_cos, y: y_cos })
    }
}

} // verus!
