//! The matrix exponential by its truncated Taylor series.

use crate::matrix2::Matrix2;
use crate::matrix3::Matrix3;
use crate::matrix4::Matrix4;
use crate::scalar::Scalar;
use vstd::prelude::*;

verus! {

/// The index of the last term the series may add.
pub const EXP_MAX_TERMS: u32 = 64;

/// A square matrix with the operations the exponential series uses.
pub trait Exponential<F: Scalar>: Copy + Sized {
    spec fn one_spec() -> Self;

    spec fn plus_spec(self, o: Self) -> Self;

    spec fn times_spec(self, o: Self) -> Self;

    spec fn over_spec(self, t: F) -> Self;

    spec fn size_spec(self) -> F;

    /// The identity.
    fn one() -> (r: Self)
        ensures
            r == Self::one_spec(),
    ;

    fn plus(self, o: Self) -> (r: Self)
        ensures
            r == self.plus_spec(o),
    ;

    fn times(self, o: Self) -> (r: Self)
        ensures
            r == self.times_spec(o),
    ;

    /// Every entry divided by `t`.
    fn over(self, t: F) -> (r: Self)
        ensures
            r == self.over_spec(t),
    ;

    /// The l∞ operator norm, which decides where the series stops.
    fn size(self) -> (r: F)
        ensures
            r == self.size_spec(),
    ;
}

/// The series from term `i` on: `res` holds the sum of the terms before
/// `term = mⁱ⁻¹/(i-1)!`. Each step adds `term` and forms the next one; the
/// series stops once a new term's norm is below `ε·|m|`, or after the term
/// of index `EXP_MAX_TERMS`.
pub open spec fn exp_from<F: Scalar, M: Exponential<F>>(m: M, term: M, res: M, i: nat) -> M
    decreases EXP_MAX_TERMS + 1 - i,
{
    if i > EXP_MAX_TERMS {
        res
    } else {
        let res2 = res.plus_spec(term);
        let next = term.times_spec(m).over_spec(F::from_u32_spec(i as u32));
        if next.size_spec().lt_spec(F::epsilon_spec().mul_spec(m.size_spec())) {
            res2
        } else {
            exp_from(m, next, res2, i + 1)
        }
    }
}

/// `exp(m) = Σ mᵏ/k!`, truncated.
pub open spec fn exp_spec<F: Scalar, M: Exponential<F>>(m: M) -> M {
    exp_from(m, m, M::one_spec(), 2)
}

/// The exponential of `m`.
pub fn exp<F: Scalar, M: Exponential<F>>(m: M) -> (r: M)
    ensures
        r == exp_spec::<F, M>(m),
{
    let eps = F::epsilon();
    let bound = eps.mul(m.size());
    let mut term = m;
    let mut res = M::one();
    let mut i: u32 = 2;
    while i <= EXP_MAX_TERMS
        invariant
            2 <= i <= EXP_MAX_TERMS + 1,
            bound == F::epsilon_spec().mul_spec(m.size_spec()),
            exp_from(m, term, res, i as nat) == exp_spec::<F, M>(m),
        decreases EXP_MAX_TERMS + 1 - i,
    {
        res = res.plus(term);
        term = term.times(m).over(F::from_u32(i));
        if term.size().lt(bound) {
            return res;
        }
        i = i + 1;
    }
    res
}

impl<F: Scalar> Exponential<F> for Matrix2<F> {
    open spec fn one_spec() -> Self {
        Matrix2::<F>::identity_spec()
    }

    open spec fn plus_spec(self, o: Self) -> Self {
        Matrix2::<F>::add_spec(self, o)
    }

    open spec fn times_spec(self, o: Self) -> Self {
        Matrix2::<F>::mul_spec(self, o)
    }

    open spec fn over_spec(self, t: F) -> Self {
        Matrix2::<F>::div_spec(self, t)
    }

    open spec fn size_spec(self) -> F {
        self.norm_linf_spec()
    }

    fn one() -> (r: Self) {
        Matrix2::<F>::identity()
    }

    fn plus(self, o: Self) -> (r: Self) {
        Matrix2::<F>::add(self, o)
    }

    fn times(self, o: Self) -> (r: Self) {
        Matrix2::<F>::mul(self, o)
    }

    fn over(self, t: F) -> (r: Self) {
        Matrix2::<F>::div(self, t)
    }

    fn size(self) -> (r: F) {
        self.norm_linf()
    }
}

impl<F: Scalar> Exponential<F> for Matrix3<F> {
    open spec fn one_spec() -> Self {
        Matrix3::<F>::identity_spec()
    }

    open spec fn plus_spec(self, o: Self) -> Self {
        Matrix3::<F>::add_spec(self, o)
    }

    open spec fn times_spec(self, o: Self) -> Self {
        Matrix3::<F>::mul_spec(self, o)
    }

    open spec fn over_spec(self, t: F) -> Self {
        Matrix3::<F>::div_spec(self, t)
    }

    open spec fn size_spec(self) -> F {
        self.norm_linf_spec()
    }

    fn one() -> (r: Self) {
        Matrix3::<F>::identity()
    }

    fn plus(self, o: Self) -> (r: Self) {
        Matrix3::<F>::add(self, o)
    }

    fn times(self, o: Self) -> (r: Self) {
        Matrix3::<F>::mul(self, o)
    }

    fn over(self, t: F) -> (r: Self) {
        Matrix3::<F>::div(self, t)
    }

    fn size(self) -> (r: F) {
        self.norm_linf()
    }
}

impl<F: Scalar> Exponential<F> for Matrix4<F> {
    open spec fn one_spec() -> Self {
        Matrix4::<F>::identity_spec()
    }

    open spec fn plus_spec(self, o: Self) -> Self {
        Matrix4::<F>::add_spec(self, o)
    }

    open spec fn times_spec(self, o: Self) -> Self {
        Matrix4::<F>::mul_spec(self, o)
    }

    open spec fn over_spec(self, t: F) -> Self {
        Matrix4::<F>::div_spec(self, t)
    }

    open spec fn size_spec(self) -> F {
        self.norm_linf_spec()
    }

    fn one() -> (r: Self) {
        Matrix4::<F>::identity()
    }

    fn plus(self, o: Self) -> (r: Self) {
        Matrix4::<F>::add(self, o)
    }

    fn times(self, o: Self) -> (r: Self) {
        Matrix4::<F>::mul(self, o)
    }

    fn over(self, t: F) -> (r: Self) {
        Matrix4::<F>::div(self, t)
    }

    fn size(self) -> (r: F) {
        self.norm_linf()
    }
}

impl<F: Scalar> Matrix2<F> {
    /// The matrix exponential.
    pub fn exp(self) -> (r: Self)
        ensures
            r == exp_spec::<F, Self>(self),
    {
        exp::<F, Self>(self)
    }
}

impl<F: Scalar> Matrix3<F> {
    /// The matrix exponential.
    pub fn exp(self) -> (r: Self)
        ensures
            r == exp_spec::<F, Self>(self),
    {
        exp::<F, Self>(self)
    }
}

impl<F: Scalar> Matrix4<F> {
    /// The matrix exponential.
    pub fn exp(self) -> (r: Self)
        ensures
            r == exp_spec::<F, Self>(self),
    {
        exp::<F, Self>(self)
    }
}

} // verus!
