//! Scalar capability traits.
//!
//! Each trait names one constant or operation family so that integer and
//! floating-point scalars can support different subsets: every built-in
//! integer type implements [`Zero`], [`One`], [`Min`], [`Max`] and
//! [`Scalar`] here, the signed ones also [`NegOne`]; [`Infinity`] and
//! [`Trig`] are declared for scalars (such as floating-point types) that a
//! consumer of the library provides.

use vstd::prelude::*;

verus! {

/// Trait for types with a zero value.
pub trait Zero: Copy + Sized {
    /// The 0 value, as a specification-level constant.
    spec fn spec_zero() -> Self;

    /// Returns the 0 value.
    fn zero() -> (r: Self)
        ensures
            r == Self::spec_zero(),
    ;
}

/// Trait for types with a one value.
pub trait One: Copy + Sized {
    /// The 1 value, as a specification-level constant.
    spec fn spec_one() -> Self;

    /// Returns the 1 value.
    fn one() -> (r: Self)
        ensures
            r == Self::spec_one(),
    ;
}

/// Trait for types with a negative one value.
pub trait NegOne: Copy + Sized {
    /// The -1 value, as a specification-level constant.
    spec fn spec_neg_one() -> Self;

    /// Returns the -1 value.
    fn neg_one() -> (r: Self)
        ensures
            r == Self::spec_neg_one(),
    ;
}

/// Trait for types with a minimum value.
pub trait Min: Copy + Sized {
    /// The minimum value for this type, as a specification-level constant.
    spec fn spec_min() -> Self;

    /// Returns the minimum value for this type.
    fn min_value() -> (r: Self)
        ensures
            r == Self::spec_min(),
    ;
}

/// Trait for types with a maximum value.
pub trait Max: Copy + Sized {
    /// The maximum value for this type, as a specification-level constant.
    spec fn spec_max() -> Self;

    /// Returns the maximum value for this type.
    fn max_value() -> (r: Self)
        ensures
            r == Self::spec_max(),
    ;
}

/// Trait for types with an infinite value.
///
/// No scalar in this crate has one; the trait is declared for
/// floating-point scalars supplied by a consumer, and is propagated
/// component-wise by the compound geometry types.
pub trait Infinity: Copy + Sized {
    /// Returns the infinity value for this type.
    fn infinity() -> Self;
}

/// Trait for types with trigonometric functions.
///
/// No scalar in this crate has them; the trait is declared for
/// floating-point scalars supplied by a consumer, and is propagated
/// component-wise by the compound geometry types.
pub trait Trig: Copy + Sized {
    /// Computes the sine of `self`.
    fn sin(self) -> Self;

    /// Computes the cosine of `self`.
    fn cos(self) -> Self;

    /// Computes the tangent of `self`.
    fn tan(self) -> Self;

    /// Computes both the sine and cosine of `self`.
    fn sin_cos(self) -> (Self, Self);
}

/// Trait for scalars with exact, verifiable arithmetic and ordering.
///
/// A scalar models a bounded range of the mathematical integers:
/// [`Scalar::lift`] maps a value to the integer it stands for and
/// [`Scalar::fits`] says which integers are representable. The arithmetic
/// methods are exact on representable results, which callers guarantee
/// through their `requires` clauses.
pub trait Scalar: Zero + One {
    /// The mathematical value this scalar stands for.
    spec fn lift(self) -> int;

    /// Whether a mathematical value is representable in this type.
    spec fn fits(v: int) -> bool;

    /// Every value of the type represents a representable integer.
    proof fn lemma_lift_fits(self)
        ensures
            Self::fits(self.lift()),
    ;

    /// The zero and one constants stand for 0 and 1.
    proof fn lemma_zero_one()
        ensures
            Self::spec_zero().lift() == 0,
            Self::spec_one().lift() == 1,
    ;

    /// Two values standing for the same integer are the same value.
    proof fn lemma_lift_injective(a: Self, b: Self)
        requires
            a.lift() == b.lift(),
        ensures
            a == b,
    ;

    /// Exact addition; the result must be representable.
    fn plus(self, rhs: Self) -> (r: Self)
        requires
            Self::fits(self.lift() + rhs.lift()),
        ensures
            r.lift() == self.lift() + rhs.lift(),
    ;

    /// Exact subtraction; the result must be representable.
    fn minus(self, rhs: Self) -> (r: Self)
        requires
            Self::fits(self.lift() - rhs.lift()),
        ensures
            r.lift() == self.lift() - rhs.lift(),
    ;

    /// Exact ordering.
    fn at_most(self, rhs: Self) -> (r: bool)
        ensures
            r == (self.lift() <= rhs.lift()),
    ;

    /// Embeds a small non-negative constant into the scalar type.
    ///
    /// Every scalar type can represent at least 0 through 100, which is
    /// enough for the default drawing attributes.
    fn from_small(v: u8) -> (r: Self)
        requires
            v <= 100,
        ensures
            r.lift() == v as int,
    ;
}

impl Zero for i64 {
    open spec fn spec_zero() -> i64 {
        0i64
    }

    fn zero() -> i64 {
        0
    }
}

impl One for i64 {
    open spec fn spec_one() -> i64 {
        1i64
    }

    fn one() -> i64 {
        1
    }
}

impl NegOne for i64 {
    open spec fn spec_neg_one() -> i64 {
        -1i64
    }

    fn neg_one() -> i64 {
        -1
    }
}

impl Min for i64 {
    open spec fn spec_min() -> i64 {
        i64::MIN
    }

    fn min_value() -> i64 {
        i64::MIN
    }
}

impl Max for i64 {
    open spec fn spec_max() -> i64 {
        i64::MAX
    }

    fn max_value() -> i64 {
        i64::MAX
    }
}

impl Scalar for i64 {
    open spec fn lift(self) -> int {
        self as int
    }

    open spec fn fits(v: int) -> bool {
        i64::MIN <= v <= i64::MAX
    }

    proof fn lemma_lift_fits(self) {
    }

    proof fn lemma_zero_one() {
    }

    proof fn lemma_lift_injective(a: i64, b: i64) {
    }

    fn plus(self, rhs: i64) -> i64 {
        self + rhs
    }

    fn minus(self, rhs: i64) -> i64 {
        self - rhs
    }

    fn at_most(self, rhs: i64) -> bool {
        self <= rhs
    }

    fn from_small(v: u8) -> i64 {
        v as i64
    }
}

impl Zero for i8 {
    open spec fn spec_zero() -> i8 {
        0i8
    }

    fn zero() -> i8 {
        0
    }
}

impl One for i8 {
    open spec fn spec_one() -> i8 {
        1i8
    }

    fn one() -> i8 {
        1
    }
}

impl NegOne for i8 {
    open spec fn spec_neg_one() -> i8 {
        -1i8
    }

    fn neg_one() -> i8 {
        -1
    }
}

impl Min for i8 {
    open spec fn spec_min() -> i8 {
        i8::MIN
    }

    fn min_value() -> i8 {
        i8::MIN
    }
}

impl Max for i8 {
    open spec fn spec_max() -> i8 {
        i8::MAX
    }

    fn max_value() -> i8 {
        i8::MAX
    }
}

impl Scalar for i8 {
    open spec fn lift(self) -> int {
        self as int
    }

    open spec fn fits(v: int) -> bool {
        i8::MIN <= v <= i8::MAX
    }

    proof fn lemma_lift_fits(self) {
    }

    proof fn lemma_zero_one() {
    }

    proof fn lemma_lift_injective(a: i8, b: i8) {
    }

    fn plus(self, rhs: i8) -> i8 {
        self + rhs
    }

    fn minus(self, rhs: i8) -> i8 {
        self - rhs
    }

    fn at_most(self, rhs: i8) -> bool {
        self <= rhs
    }

    fn from_small(v: u8) -> i8 {
        v as i8
    }
}

impl Zero for i16 {
    open spec fn spec_zero() -> i16 {
        0i16
    }

    fn zero() -> i16 {
        0
    }
}

impl One for i16 {
    open spec fn spec_one() -> i16 {
        1i16
    }

    fn one() -> i16 {
        1
    }
}

impl NegOne for i16 {
    open spec fn spec_neg_one() -> i16 {
        -1i16
    }

    fn neg_one() -> i16 {
        -1
    }
}

impl Min for i16 {
    open spec fn spec_min() -> i16 {
        i16::MIN
    }

    fn min_value() -> i16 {
        i16::MIN
    }
}

impl Max for i16 {
    open spec fn spec_max() -> i16 {
        i16::MAX
    }

    fn max_value() -> i16 {
        i16::MAX
    }
}

impl Scalar for i16 {
    open spec fn lift(self) -> int {
        self as int
    }

    open spec fn fits(v: int) -> bool {
        i16::MIN <= v <= i16::MAX
    }

    proof fn lemma_lift_fits(self) {
    }

    proof fn lemma_zero_one() {
    }

    proof fn lemma_lift_injective(a: i16, b: i16) {
    }

    fn plus(self, rhs: i16) -> i16 {
        self + rhs
    }

    fn minus(self, rhs: i16) -> i16 {
        self - rhs
    }

    fn at_most(self, rhs: i16) -> bool {
        self <= rhs
    }

    fn from_small(v: u8) -> i16 {
        v as i16
    }
}

impl Zero for i32 {
    open spec fn spec_zero() -> i32 {
        0i32
    }

    fn zero() -> i32 {
        0
    }
}

impl One for i32 {
    open spec fn spec_one() -> i32 {
        1i32
    }

    fn one() -> i32 {
        1
    }
}

impl NegOne for i32 {
    open spec fn spec_neg_one() -> i32 {
        -1i32
    }

    fn neg_one() -> i32 {
        -1
    }
}

impl Min for i32 {
    open spec fn spec_min() -> i32 {
        i32::MIN
    }

    fn min_value() -> i32 {
        i32::MIN
    }
}

impl Max for i32 {
    open spec fn spec_max() -> i32 {
        i32::MAX
    }

    fn max_value() -> i32 {
        i32::MAX
    }
}

impl Scalar for i32 {
    open spec fn lift(self) -> int {
        self as int
    }

    open spec fn fits(v: int) -> bool {
        i32::MIN <= v <= i32::MAX
    }

    proof fn lemma_lift_fits(self) {
    }

    proof fn lemma_zero_one() {
    }

    proof fn lemma_lift_injective(a: i32, b: i32) {
    }

    fn plus(self, rhs: i32) -> i32 {
        self + rhs
    }

    fn minus(self, rhs: i32) -> i32 {
        self - rhs
    }

    fn at_most(self, rhs: i32) -> bool {
        self <= rhs
    }

    fn from_small(v: u8) -> i32 {
        v as i32
    }
}

impl Zero for isize {
    open spec fn spec_zero() -> isize {
        0isize
    }

    fn zero() -> isize {
        0
    }
}

impl One for isize {
    open spec fn spec_one() -> isize {
        1isize
    }

    fn one() -> isize {
        1
    }
}

impl NegOne for isize {
    open spec fn spec_neg_one() -> isize {
        -1isize
    }

    fn neg_one() -> isize {
        -1
    }
}

impl Min for isize {
    open spec fn spec_min() -> isize {
        isize::MIN
    }

    fn min_value() -> isize {
        isize::MIN
    }
}

impl Max for isize {
    open spec fn spec_max() -> isize {
        isize::MAX
    }

    fn max_value() -> isize {
        isize::MAX
    }
}

impl Scalar for isize {
    open spec fn lift(self) -> int {
        self as int
    }

    open spec fn fits(v: int) -> bool {
        isize::MIN <= v <= isize::MAX
    }

    proof fn lemma_lift_fits(self) {
    }

    proof fn lemma_zero_one() {
    }

    proof fn lemma_lift_injective(a: isize, b: isize) {
    }

    fn plus(self, rhs: isize) -> isize {
        self + rhs
    }

    fn minus(self, rhs: isize) -> isize {
        self - rhs
    }

    fn at_most(self, rhs: isize) -> bool {
        self <= rhs
    }

    fn from_small(v: u8) -> isize {
        v as isize
    }
}

impl Zero for u8 {
    open spec fn spec_zero() -> u8 {
        0u8
    }

    fn zero() -> u8 {
        0
    }
}

impl One for u8 {
    open spec fn spec_one() -> u8 {
        1u8
    }

    fn one() -> u8 {
        1
    }
}

impl Min for u8 {
    open spec fn spec_min() -> u8 {
        u8::MIN
    }

    fn min_value() -> u8 {
        u8::MIN
    }
}

impl Max for u8 {
    open spec fn spec_max() -> u8 {
        u8::MAX
    }

    fn max_value() -> u8 {
        u8::MAX
    }
}

impl Scalar for u8 {
    open spec fn lift(self) -> int {
        self as int
    }

    open spec fn fits(v: int) -> bool {
        u8::MIN <= v <= u8::MAX
    }

    proof fn lemma_lift_fits(self) {
    }

    proof fn lemma_zero_one() {
    }

    proof fn lemma_lift_injective(a: u8, b: u8) {
    }

    fn plus(self, rhs: u8) -> u8 {
        self + rhs
    }

    fn minus(self, rhs: u8) -> u8 {
        self - rhs
    }

    fn at_most(self, rhs: u8) -> bool {
        self <= rhs
    }

    fn from_small(v: u8) -> u8 {
        v as u8
    }
}

impl Zero for u16 {
    open spec fn spec_zero() -> u16 {
        0u16
    }

    fn zero() -> u16 {
        0
    }
}

impl One for u16 {
    open spec fn spec_one() -> u16 {
        1u16
    }

    fn one() -> u16 {
        1
    }
}

impl Min for u16 {
    open spec fn spec_min() -> u16 {
        u16::MIN
    }

    fn min_value() -> u16 {
        u16::MIN
    }
}

impl Max for u16 {
    open spec fn spec_max() -> u16 {
        u16::MAX
    }

    fn max_value() -> u16 {
        u16::MAX
    }
}

impl Scalar for u16 {
    open spec fn lift(self) -> int {
        self as int
    }

    open spec fn fits(v: int) -> bool {
        u16::MIN <= v <= u16::MAX
    }

    proof fn lemma_lift_fits(self) {
    }

    proof fn lemma_zero_one() {
    }

    proof fn lemma_lift_injective(a: u16, b: u16) {
    }

    fn plus(self, rhs: u16) -> u16 {
        self + rhs
    }

    fn minus(self, rhs: u16) -> u16 {
        self - rhs
    }

    fn at_most(self, rhs: u16) -> bool {
        self <= rhs
    }

    fn from_small(v: u8) -> u16 {
        v as u16
    }
}

impl Zero for u32 {
    open spec fn spec_zero() -> u32 {
        0u32
    }

    fn zero() -> u32 {
        0
    }
}

impl One for u32 {
    open spec fn spec_one() -> u32 {
        1u32
    }

    fn one() -> u32 {
        1
    }
}

impl Min for u32 {
    open spec fn spec_min() -> u32 {
        u32::MIN
    }

    fn min_value() -> u32 {
        u32::MIN
    }
}

impl Max for u32 {
    open spec fn spec_max() -> u32 {
        u32::MAX
    }

    fn max_value() -> u32 {
        u32::MAX
    }
}

impl Scalar for u32 {
    open spec fn lift(self) -> int {
        self as int
    }

    open spec fn fits(v: int) -> bool {
        u32::MIN <= v <= u32::MAX
    }

    proof fn lemma_lift_fits(self) {
    }

    proof fn lemma_zero_one() {
    }

    proof fn lemma_lift_injective(a: u32, b: u32) {
    }

    fn plus(self, rhs: u32) -> u32 {
        self + rhs
    }

    fn minus(self, rhs: u32) -> u32 {
        self - rhs
    }

    fn at_most(self, rhs: u32) -> bool {
        self <= rhs
    }

    fn from_small(v: u8) -> u32 {
        v as u32
    }
}

impl Zero for u64 {
    open spec fn spec_zero() -> u64 {
        0u64
    }

    fn zero() -> u64 {
        0
    }
}

impl One for u64 {
    open spec fn spec_one() -> u64 {
        1u64
    }

    fn one() -> u64 {
        1
    }
}

impl Min for u64 {
    open spec fn spec_min() -> u64 {
        u64::MIN
    }

    fn min_value() -> u64 {
        u64::MIN
    }
}

impl Max for u64 {
    open spec fn spec_max() -> u64 {
        u64::MAX
    }

    fn max_value() -> u64 {
        u64::MAX
    }
}

impl Scalar for u64 {
    open spec fn lift(self) -> int {
        self as int
    }

    open spec fn fits(v: int) -> bool {
        u64::MIN <= v <= u64::MAX
    }

    proof fn lemma_lift_fits(self) {
    }

    proof fn lemma_zero_one() {
    }

    proof fn lemma_lift_injective(a: u64, b: u64) {
    }

    fn plus(self, rhs: u64) -> u64 {
        self + rhs
    }

    fn minus(self, rhs: u64) -> u64 {
        self - rhs
    }

    fn at_most(self, rhs: u64) -> bool {
        self <= rhs
    }

    fn from_small(v: u8) -> u64 {
        v as u64
    }
}

impl Zero for usize {
    open spec fn spec_zero() -> usize {
        0usize
    }

    fn zero() -> usize {
        0
    }
}

impl One for usize {
    open spec fn spec_one() -> usize {
        1usize
    }

    fn one() -> usize {
        1
    }
}

impl Min for usize {
    open spec fn spec_min() -> usize {
        usize::MIN
    }

    fn min_value() -> usize {
        usize::MIN
    }
}

impl Max for usize {
    open spec fn spec_max() -> usize {
        usize::MAX
    }

    fn max_value() -> usize {
        usize::MAX
    }
}

impl Scalar for usize {
    open spec fn lift(self) -> int {
        self as int
    }

    open spec fn fits(v: int) -> bool {
        usize::MIN <= v <= usize::MAX
    }

    proof fn lemma_lift_fits(self) {
    }

    proof fn lemma_zero_one() {
    }

    proof fn lemma_lift_injective(a: usize, b: usize) {
    }

    fn plus(self, rhs: usize) -> usize {
        self + rhs
    }

    fn minus(self, rhs: usize) -> usize {
        self - rhs
    }

    fn at_most(self, rhs: usize) -> bool {
        self <= rhs
    }

    fn from_small(v: u8) -> usize {
        v as usize
    }
}

impl Zero for i128 {
    open spec fn spec_zero() -> i128 {
        0i128
    }

    fn zero() -> i128 {
        0
    }
}

impl One for i128 {
    open spec fn spec_one() -> i128 {
        1i128
    }

    fn one() -> i128 {
        1
    }
}

impl NegOne for i128 {
    open spec fn spec_neg_one() -> i128 {
        -1i128
    }

    fn neg_one() -> i128 {
        -1
    }
}

impl Min for i128 {
    open spec fn spec_min() -> i128 {
        i128::MIN
    }

    fn min_value() -> i128 {
        i128::MIN
    }
}

impl Max for i128 {
    open spec fn spec_max() -> i128 {
        i128::MAX
    }

    fn max_value() -> i128 {
        i128::MAX
    }
}

impl Scalar for i128 {
    open spec fn lift(self) -> int {
        self as int
    }

    open spec fn fits(v: int) -> bool {
        i128::MIN <= v <= i128::MAX
    }

    proof fn lemma_lift_fits(self) {
    }

    proof fn lemma_zero_one() {
    }

    proof fn lemma_lift_injective(a: i128, b: i128) {
    }

    fn plus(self, rhs: i128) -> i128 {
        self + rhs
    }

    fn minus(self, rhs: i128) -> i128 {
        self - rhs
    }

    fn at_most(self, rhs: i128) -> bool {
        self <= rhs
    }

    fn from_small(v: u8) -> i128 {
        v as i128
    }
}

impl Zero for u128 {
    open spec fn spec_zero() -> u128 {
        0u128
    }

    fn zero() -> u128 {
        0
    }
}

impl One for u128 {
    open spec fn spec_one() -> u128 {
        1u128
    }

    fn one() -> u128 {
        1
    }
}

impl Min for u128 {
    open spec fn spec_min() -> u128 {
        u128::MIN
    }

    fn min_value() -> u128 {
        u128::MIN
    }
}

impl Max for u128 {
    open spec fn spec_max() -> u128 {
        u128::MAX
    }

    fn max_value() -> u128 {
        u128::MAX
    }
}

impl Scalar for u128 {
    open spec fn lift(self) -> int {
        self as int
    }

    open spec fn fits(v: int) -> bool {
        u128::MIN <= v <= u128::MAX
    }

    proof fn lemma_lift_fits(self) {
    }

    proof fn lemma_zero_one() {
    }

    proof fn lemma_lift_injective(a: u128, b: u128) {
    }

    fn plus(self, rhs: u128) -> u128 {
        self + rhs
    }

    fn minus(self, rhs: u128) -> u128 {
        self - rhs
    }

    fn at_most(self, rhs: u128) -> bool {
        self <= rhs
    }

    fn from_small(v: u8) -> u128 {
        v as u128
    }
}

} // verus!
