//! The real number type that every routine of the library computes with.

use vstd::prelude::*;

verus! {

/// A real floating-point type.
///
/// Each operation is tied to a spec function of the same meaning, so that the
/// library's contracts can state exactly which value a routine computes: the
/// one obtained by applying these operations in the stated order. An
/// implementation only has to be deterministic: equal arguments give equal
/// results. Where it is written outside verified code, each `*_spec`
/// function is simply the operation it models (`add_spec` calls `add`).
///
/// For the machine floats that determinism is an assumption on the platform:
/// the basic arithmetic is exactly rounded, but the precision of `powf`, `ln`,
/// `hypot` and of the complex roots rests on the math library, whose
/// documentation allows results that differ between platforms and calls.
/// Every contract of this library that speaks of such an operation holds
/// only as far as the implementation gives equal results for equal
/// arguments.
pub trait Scalar: Copy + Sized {
    /// The value `0`.
    spec fn zero_spec() -> Self;

    /// The value `1`.
    spec fn one_spec() -> Self;

    /// The machine epsilon of the type.
    spec fn epsilon_spec() -> Self;

    /// The value of a small natural number.
    spec fn from_u32_spec(n: u32) -> Self;

    spec fn add_spec(self, o: Self) -> Self;

    spec fn sub_spec(self, o: Self) -> Self;

    spec fn mul_spec(self, o: Self) -> Self;

    spec fn div_spec(self, o: Self) -> Self;

    spec fn neg_spec(self) -> Self;

    spec fn abs_spec(self) -> Self;

    /// `1` for a positive number or `+0`, `-1` for a negative one or `-0`.
    spec fn signum_spec(self) -> Self;

    spec fn sqrt_spec(self) -> Self;

    /// Natural logarithm.
    spec fn ln_spec(self) -> Self;

    /// `self` raised to the power `e`.
    spec fn powf_spec(self, e: Self) -> Self;

    /// `sqrt(self * self + o * o)`, computed without undue overflow.
    spec fn hypot_spec(self, o: Self) -> Self;

    /// The larger of the two values.
    spec fn max_spec(self, o: Self) -> Self;

    /// `self == o`.
    spec fn equal_spec(self, o: Self) -> bool;

    /// Whether the two values are equal up to a few units in the last place.
    spec fn ulps_eq_spec(self, o: Self) -> bool;

    /// `self < o`.
    spec fn lt_spec(self, o: Self) -> bool;

    /// `self <= o`.
    spec fn le_spec(self, o: Self) -> bool;

    /// Principal square root of the complex number `re + i im`, as its real
    /// and imaginary parts.
    spec fn complex_sqrt_spec(re: Self, im: Self) -> (Self, Self);

    /// Principal value of `(re + i im)` raised to the real power `e`, as its
    /// real and imaginary parts.
    spec fn complex_powf_spec(re: Self, im: Self, e: Self) -> (Self, Self);

    fn zero() -> (r: Self)
        ensures
            r == Self::zero_spec(),
    ;

    fn one() -> (r: Self)
        ensures
            r == Self::one_spec(),
    ;

    fn epsilon() -> (r: Self)
        ensures
            r == Self::epsilon_spec(),
    ;

    fn from_u32(n: u32) -> (r: Self)
        ensures
            r == Self::from_u32_spec(n),
    ;

    fn add(self, o: Self) -> (r: Self)
        ensures
            r == self.add_spec(o),
    ;

    fn sub(self, o: Self) -> (r: Self)
        ensures
            r == self.sub_spec(o),
    ;

    fn mul(self, o: Self) -> (r: Self)
        ensures
            r == self.mul_spec(o),
    ;

    fn div(self, o: Self) -> (r: Self)
        ensures
            r == self.div_spec(o),
    ;

    fn neg(self) -> (r: Self)
        ensures
            r == self.neg_spec(),
    ;

    fn abs(self) -> (r: Self)
        ensures
            r == self.abs_spec(),
    ;

    fn signum(self) -> (r: Self)
        ensures
            r == self.signum_spec(),
    ;

    fn sqrt(self) -> (r: Self)
        ensures
            r == self.sqrt_spec(),
    ;

    fn ln(self) -> (r: Self)
        ensures
            r == self.ln_spec(),
    ;

    fn powf(self, e: Self) -> (r: Self)
        ensures
            r == self.powf_spec(e),
    ;

    fn hypot(self, o: Self) -> (r: Self)
        ensures
            r == self.hypot_spec(o),
    ;

    fn max(self, o: Self) -> (r: Self)
        ensures
            r == self.max_spec(o),
    ;

    fn equal(self, o: Self) -> (r: bool)
        ensures
            r == self.equal_spec(o),
    ;

    fn ulps_eq(self, o: Self) -> (r: bool)
        ensures
            r == self.ulps_eq_spec(o),
    ;

    fn lt(self, o: Self) -> (r: bool)
        ensures
            r == self.lt_spec(o),
    ;

    fn le(self, o: Self) -> (r: bool)
        ensures
            r == self.le_spec(o),
    ;

    fn complex_sqrt(re: Self, im: Self) -> (r: (Self, Self))
        ensures
            r == Self::complex_sqrt_spec(re, im),
    ;

    fn complex_powf(re: Self, im: Self, e: Self) -> (r: (Self, Self))
        ensures
            r == Self::complex_powf_spec(re, im, e),
    ;
}

/// `2`, written as `1 + 1`.
pub open spec fn two<F: Scalar>() -> F {
    F::one_spec().add_spec(F::one_spec())
}

/// `3`, written as `2 + 1`.
pub open spec fn three<F: Scalar>() -> F {
    two::<F>().add_spec(F::one_spec())
}

/// `4`, written as `2 + 2`.
pub open spec fn four<F: Scalar>() -> F {
    two::<F>().add_spec(two::<F>())
}

/// The tolerance of Newton refinement: the square root of the machine epsilon.
pub open spec fn sqrt_epsilon<F: Scalar>() -> F {
    F::epsilon_spec().sqrt_spec()
}

pub fn two_exec<F: Scalar>() -> (r: F)
    ensures
        r == two::<F>(),
{
    F::one().add(F::one())
}

pub fn three_exec<F: Scalar>() -> (r: F)
    ensures
        r == three::<F>(),
{
    two_exec::<F>().add(F::one())
}

pub fn four_exec<F: Scalar>() -> (r: F)
    ensures
        r == four::<F>(),
{
    let t = two_exec::<F>();
    t.add(t)
}

pub fn sqrt_epsilon_exec<F: Scalar>() -> (r: F)
    ensures
        r == sqrt_epsilon::<F>(),
{
    F::epsilon().sqrt()
}

} // verus!
