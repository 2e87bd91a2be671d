//! Operations on [`Affine2`].

use vstd::prelude::*;

use super::{Affine2, Mat2, One, Vec2, Zero};

verus! {

impl<T> Affine2<T> {
    /// Returns an affine transform for the given transform and translation.
    pub fn new(transform: Mat2<T>, translation: Vec2<T>) -> (r: Self)
        ensures
            r == (Affine2 { transform, translation }),
    {
        Affine2 { transform, translation }
    }

    /// Returns an affine transform for the given transform and with a zero
    /// translation.
    pub fn from_transform(transform: Mat2<T>) -> (r: Self) where T: Zero
        ensures
            r == (Affine2 { transform, translation: Vec2::<T>::spec_zero() }),
    {
        Affine2 { transform, translation: Vec2::zero() }
    }

    /// The scaling transform, at the specification level.
    pub open spec fn spec_from_scale(scale: Vec2<T>) -> Self where T: Zero {
        Affine2 {
            transform: Mat2::<T>::spec_from_scale(scale),
            translation: Vec2::<T>::spec_zero(),
        }
    }

    /// Returns a transform that scales vectors.
    pub fn from_scale(scale: Vec2<T>) -> (r: Self) where T: Zero
        ensures
            r == Self::spec_from_scale(scale),
    {
        Affine2 { transform: Mat2::from_scale(scale), translation: Vec2::zero() }
    }

    /// Returns an affine transform for the given translation and with an
    /// identity transformation.
    pub fn from_translation(translation: Vec2<T>) -> (r: Self) where T: Zero + One
        ensures
            r == (Affine2 { transform: Mat2::<T>::spec_identity(), translation }),
    {
        Affine2 { transform: Mat2::identity(), translation }
    }

    /// Maps the transform portion of this transform.
    pub fn map_transform<F: FnOnce(Mat2<T>) -> Mat2<T>>(self, f: F) -> (r: Self)
        requires
            call_requires(f, (self.transform,)),
        ensures
            call_ensures(f, (self.transform,), r.transform),
            r.translation == self.translation,
    {
        let Affine2 { transform, translation } = self;

        Affine2 { transform: f(transform), translation }
    }

    /// Maps the translation portion of this transform.
    pub fn map_translation<F: FnOnce(Vec2<T>) -> Vec2<T>>(self, f: F) -> (r: Self)
        requires
            call_requires(f, (self.translation,)),
        ensures
            call_ensures(f, (self.translation,), r.translation),
            r.transform == self.transform,
    {
        let Affine2 { transform, translation } = self;

        Affine2 { transform, translation: f(translation) }
    }
}

impl<T: Zero + One> Affine2<T> {
    /// The identity transform, at the specification level.
    pub open spec fn spec_identity() -> Self {
        Affine2 {
            transform: Mat2::<T>::spec_identity(),
            translation: Vec2::<T>::spec_zero(),
        }
    }

    /// Returns the identity transform.
    pub fn identity() -> (r: Self)
        ensures
            r == Self::spec_identity(),
    {
        Affine2 { transform: Mat2::identity(), translation: Vec2::zero() }
    }
}

/// Law: scaling by one on both axes is the identity transform.
pub proof fn lemma_affine2_from_scale_one<T: Zero + One>()
    ensures
        Affine2::<T>::spec_from_scale(Vec2 { x: T::spec_one(), y: T::spec_one() })
            == Affine2::<T>::spec_identity(),
{
}

impl<T: Zero + One> Default for Affine2<T> {
    /// The identity transform.
    fn default() -> (r: Self)
        ensures
            r == Affine2::<T>::spec_identity(),
    {
        Affine2::identity()
    }
}

} // verus!
