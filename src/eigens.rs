//! Eigenvalues from the coefficients of the characteristic polynomial, and
//! the operator norms.

use crate::complex::Complex;
use crate::matrix2::Matrix2;
use crate::matrix3::Matrix3;
use crate::matrix4::Matrix4;
use crate::scalar::Scalar;
use crate::solver::{
    cubic_roots, quadratic_roots, quartic_roots, solve_cubic, solve_quadratic, solve_quartic,
};
use vstd::prelude::*;

verus! {

/// The sum of the principal 2×2 minors of a 3×3 matrix: the coefficient of
/// `x` in its characteristic polynomial.
pub open spec fn minors2_of3<F: Scalar>(m: Matrix3<F>) -> F {
    m.x.x.mul_spec(m.y.y).add_spec(m.x.x.mul_spec(m.z.z)).add_spec(m.y.y.mul_spec(m.z.z)).sub_spec(m.x.y.mul_spec(m.y.x)).sub_spec(m.y.z.mul_spec(m.z.y)).sub_spec(m.x.z.mul_spec(m.z.x))
}

/// The sum of the principal 2×2 minors of a 4×4 matrix.
pub open spec fn minors2_of4<F: Scalar>(m: Matrix4<F>) -> F {
    m.x.x.mul_spec(m.y.y).add_spec(m.x.x.mul_spec(m.z.z)).add_spec(m.x.x.mul_spec(m.w.w)).add_spec(m.y.y.mul_spec(m.z.z)).add_spec(m.y.y.mul_spec(m.w.w)).add_spec(m.z.z.mul_spec(m.w.w)).sub_spec(m.x.y.mul_spec(m.y.x)).sub_spec(m.x.z.mul_spec(m.z.x)).sub_spec(m.x.w.mul_spec(m.w.x)).sub_spec(m.y.z.mul_spec(m.z.y)).sub_spec(m.y.w.mul_spec(m.w.y)).sub_spec(m.z.w.mul_spec(m.w.z))
}

/// The sum of the principal 3×3 minors of a 4×4 matrix.
pub open spec fn minors3_of4<F: Scalar>(m: Matrix4<F>) -> F {
    let det3 = m.truncate_spec().determinant_spec();
    m.x.x.mul_spec(m.y.y).add_spec(m.x.x.mul_spec(m.z.z)).add_spec(m.y.y.mul_spec(m.z.z)).sub_spec(m.x.y.mul_spec(m.y.x)).sub_spec(m.x.z.mul_spec(m.z.x)).sub_spec(m.y.z.mul_spec(m.z.y)).mul_spec(m.w.w).add_spec(m.z.x.mul_spec(m.w.z).sub_spec(m.z.z.mul_spec(m.w.x)).add_spec(m.y.x.mul_spec(m.w.y)).sub_spec(m.y.y.mul_spec(m.w.x)).mul_spec(m.x.w)).add_spec(m.z.y.mul_spec(m.w.z).sub_spec(m.z.z.mul_spec(m.w.y)).add_spec(m.w.x.mul_spec(m.x.y)).sub_spec(m.w.y.mul_spec(m.x.x)).mul_spec(m.y.w)).add_spec(m.w.y.mul_spec(m.y.z).sub_spec(m.w.z.mul_spec(m.y.y)).add_spec(m.w.x.mul_spec(m.x.z)).sub_spec(m.w.z.mul_spec(m.x.x)).mul_spec(m.z.w)).add_spec(det3)
}

fn minors2_of3_exec<F: Scalar>(m: Matrix3<F>) -> (r: F)
    ensures
        r == minors2_of3(m),
{
    m.x.x.mul(m.y.y).add(m.x.x.mul(m.z.z)).add(m.y.y.mul(m.z.z)).sub(m.x.y.mul(m.y.x)).sub(m.y.z.mul(m.z.y)).sub(m.x.z.mul(m.z.x))
}

fn minors2_of4_exec<F: Scalar>(m: Matrix4<F>) -> (r: F)
    ensures
        r == minors2_of4(m),
{
    m.x.x.mul(m.y.y).add(m.x.x.mul(m.z.z)).add(m.x.x.mul(m.w.w)).add(m.y.y.mul(m.z.z)).add(m.y.y.mul(m.w.w)).add(m.z.z.mul(m.w.w)).sub(m.x.y.mul(m.y.x)).sub(m.x.z.mul(m.z.x)).sub(m.x.w.mul(m.w.x)).sub(m.y.z.mul(m.z.y)).sub(m.y.w.mul(m.w.y)).sub(m.z.w.mul(m.w.z))
}

fn minors3_of4_exec<F: Scalar>(m: Matrix4<F>) -> (r: F)
    ensures
        r == minors3_of4(m),
{
    let det3 = m.truncate().determinant();
    m.x.x.mul(m.y.y).add(m.x.x.mul(m.z.z)).add(m.y.y.mul(m.z.z)).sub(m.x.y.mul(m.y.x)).sub(m.x.z.mul(m.z.x)).sub(m.y.z.mul(m.z.y)).mul(m.w.w).add(m.z.x.mul(m.w.z).sub(m.z.z.mul(m.w.x)).add(m.y.x.mul(m.w.y)).sub(m.y.y.mul(m.w.x)).mul(m.x.w)).add(m.z.y.mul(m.w.z).sub(m.z.z.mul(m.w.y)).add(m.w.x.mul(m.x.y)).sub(m.w.y.mul(m.x.x)).mul(m.y.w)).add(m.w.y.mul(m.y.z).sub(m.w.z.mul(m.y.y)).add(m.w.x.mul(m.x.z)).sub(m.w.z.mul(m.x.x)).mul(m.z.w)).add(det3)
}

impl<F: Scalar> Matrix2<F> {
    /// The roots of the characteristic polynomial `x² - tr(M)x + det(M)`,
    /// in no particular order.
    pub open spec fn eigenvalues_spec(self) -> (Complex<F>, Complex<F>) {
        quadratic_roots(self.trace_spec().neg_spec(), self.determinant_spec())
    }

    /// The largest column sum of absolute values.
    pub open spec fn norm_l1_spec(self) -> F {
        let m = self;
        m.x.x.abs_spec().add_spec(m.x.y.abs_spec()).max_spec(m.y.x.abs_spec().add_spec(m.y.y.abs_spec()))
    }

    /// The largest row sum of absolute values.
    pub open spec fn norm_linf_spec(self) -> F {
        let m = self;
        m.x.x.abs_spec().add_spec(m.y.x.abs_spec()).max_spec(m.x.y.abs_spec().add_spec(m.y.y.abs_spec()))
    }

    /// The square root of the largest real part among the eigenvalues of `MᵗM`.
    pub open spec fn norm_l2_spec(self) -> F {
        let e = self.transpose_spec().mul_spec(self).eigenvalues_spec();
        e.0.re.max_spec(e.1.re).sqrt_spec()
    }

    pub fn eigenvalues(self) -> (r: [Complex<F>; 2])
        ensures
            (r[0], r[1]) == self.eigenvalues_spec(),
    {
        solve_quadratic(self.trace().neg(), self.determinant())
    }

    /// The operator norm for the l¹ norm.
    pub fn norm_l1(self) -> (r: F)
        ensures
            r == self.norm_l1_spec(),
    {
        let m = self;
        m.x.x.abs().add(m.x.y.abs()).max(m.y.x.abs().add(m.y.y.abs()))
    }

    /// The operator norm for the l∞ norm.
    pub fn norm_linf(self) -> (r: F)
        ensures
            r == self.norm_linf_spec(),
    {
        let m = self;
        m.x.x.abs().add(m.y.x.abs()).max(m.x.y.abs().add(m.y.y.abs()))
    }

    /// The operator norm for the Euclidean norm: the largest singular value.
    pub fn norm_l2(self) -> (r: F)
        ensures
            r == self.norm_l2_spec(),
    {
        let e = self.transpose().mul(self).eigenvalues();
        e[0].re.max(e[1].re).sqrt()
    }
}

impl<F: Scalar> Matrix3<F> {
    /// The roots of the characteristic polynomial
    /// `x³ - tr(M)x² + (Σ principal 2×2 minors)x - det(M)`, in no particular order.
    pub open spec fn eigenvalues_spec(self) -> (Complex<F>, Complex<F>, Complex<F>) {
        cubic_roots(self.trace_spec().neg_spec(), minors2_of3(self), self.determinant_spec().neg_spec())
    }

    /// The largest column sum of absolute values.
    pub open spec fn norm_l1_spec(self) -> F {
        let m = self;
        m.x.x.abs_spec().add_spec(m.x.y.abs_spec()).add_spec(m.x.z.abs_spec()).max_spec(
            m.y.x.abs_spec().add_spec(m.y.y.abs_spec()).add_spec(m.y.z.abs_spec()),
        ).max_spec(m.z.x.abs_spec().add_spec(m.z.y.abs_spec()).add_spec(m.z.z.abs_spec()))
    }

    /// The largest row sum of absolute values.
    pub open spec fn norm_linf_spec(self) -> F {
        let m = self;
        m.x.x.abs_spec().add_spec(m.y.x.abs_spec()).add_spec(m.z.x.abs_spec()).max_spec(
            m.x.y.abs_spec().add_spec(m.y.y.abs_spec()).add_spec(m.z.y.abs_spec()),
        ).max_spec(m.x.z.abs_spec().add_spec(m.y.z.abs_spec()).add_spec(m.z.z.abs_spec()))
    }

    /// The square root of the largest real part among the eigenvalues of `MᵗM`.
    pub open spec fn norm_l2_spec(self) -> F {
        let e = self.transpose_spec().mul_spec(self).eigenvalues_spec();
        e.0.re.max_spec(e.1.re).max_spec(e.2.re).sqrt_spec()
    }

    pub fn eigenvalues(self) -> (r: [Complex<F>; 3])
        ensures
            (r[0], r[1], r[2]) == self.eigenvalues_spec(),
    {
        solve_cubic(self.trace().neg(), minors2_of3_exec(self), self.determinant().neg())
    }

    /// The operator norm for the l¹ norm.
    pub fn norm_l1(self) -> (r: F)
        ensures
            r == self.norm_l1_spec(),
    {
        let m = self;
        m.x.x.abs().add(m.x.y.abs()).add(m.x.z.abs()).max(
            m.y.x.abs().add(m.y.y.abs()).add(m.y.z.abs()),
        ).max(m.z.x.abs().add(m.z.y.abs()).add(m.z.z.abs()))
    }

    /// The operator norm for the l∞ norm.
    pub fn norm_linf(self) -> (r: F)
        ensures
            r == self.norm_linf_spec(),
    {
        let m = self;
        m.x.x.abs().add(m.y.x.abs()).add(m.z.x.abs()).max(
            m.x.y.abs().add(m.y.y.abs()).add(m.z.y.abs()),
        ).max(m.x.z.abs().add(m.y.z.abs()).add(m.z.z.abs()))
    }

    /// The operator norm for the Euclidean norm: the largest singular value.
    pub fn norm_l2(self) -> (r: F)
        ensures
            r == self.norm_l2_spec(),
    {
        let e = self.transpose().mul(self).eigenvalues();
        e[0].re.max(e[1].re).max(e[2].re).sqrt()
    }
}

impl<F: Scalar> Matrix4<F> {
    /// The roots of the characteristic polynomial
    /// `x⁴ - tr(M)x³ + (Σ principal 2×2 minors)x² - (Σ principal 3×3 minors)x + det(M)`,
    /// in no particular order.
    pub open spec fn eigenvalues_spec(self) -> (Complex<F>, Complex<F>, Complex<F>, Complex<F>) {
        quartic_roots(
            self.trace_spec().neg_spec(),
            minors2_of4(self),
            minors3_of4(self).neg_spec(),
            self.determinant_spec(),
        )
    }

    /// The largest column sum of absolute values.
    pub open spec fn norm_l1_spec(self) -> F {
        let m = self;
        m.x.x.abs_spec().add_spec(m.x.y.abs_spec()).add_spec(m.x.z.abs_spec()).add_spec(m.x.w.abs_spec()).max_spec(
            m.y.x.abs_spec().add_spec(m.y.y.abs_spec()).add_spec(m.y.z.abs_spec()).add_spec(m.y.w.abs_spec()),
        ).max_spec(m.z.x.abs_spec().add_spec(m.z.y.abs_spec()).add_spec(m.z.z.abs_spec()).add_spec(m.z.w.abs_spec())).max_spec(
            m.w.x.abs_spec().add_spec(m.w.y.abs_spec()).add_spec(m.w.z.abs_spec()).add_spec(m.w.w.abs_spec()),
        )
    }

    /// The largest row sum of absolute values.
    pub open spec fn norm_linf_spec(self) -> F {
        let m = self;
        m.x.x.abs_spec().add_spec(m.y.x.abs_spec()).add_spec(m.z.x.abs_spec()).add_spec(m.w.x.abs_spec()).max_spec(
            m.x.y.abs_spec().add_spec(m.y.y.abs_spec()).add_spec(m.z.y.abs_spec()).add_spec(m.w.y.abs_spec()),
        ).max_spec(m.x.z.abs_spec().add_spec(m.y.z.abs_spec()).add_spec(m.z.z.abs_spec()).add_spec(m.w.z.abs_spec())).max_spec(
            m.x.w.abs_spec().add_spec(m.y.w.abs_spec()).add_spec(m.z.w.abs_spec()).add_spec(m.w.w.abs_spec()),
        )
    }

    /// The square root of the largest real part among the eigenvalues of `MᵗM`.
    pub open spec fn norm_l2_spec(self) -> F {
        let e = self.transpose_spec().mul_spec(self).eigenvalues_spec();
        e.0.re.max_spec(e.1.re).max_spec(e.2.re).max_spec(e.3.re).sqrt_spec()
    }

    pub fn eigenvalues(self) -> (r: [Complex<F>; 4])
        ensures
            (r[0], r[1], r[2], r[3]) == self.eigenvalues_spec(),
    {
        solve_quartic(
            self.trace().neg(),
            minors2_of4_exec(self),
            minors3_of4_exec(self).neg(),
            self.determinant(),
        )
    }

    /// The operator norm for the l¹ norm.
    pub fn norm_l1(self) -> (r: F)
        ensures
            r == self.norm_l1_spec(),
    {
        let m = self;
        m.x.x.abs().add(m.x.y.abs()).add(m.x.z.abs()).add(m.x.w.abs()).max(
            m.y.x.abs().add(m.y.y.abs()).add(m.y.z.abs()).add(m.y.w.abs()),
        ).max(m.z.x.abs().add(m.z.y.abs()).add(m.z.z.abs()).add(m.z.w.abs())).max(
            m.w.x.abs().add(m.w.y.abs()).add(m.w.z.abs()).add(m.w.w.abs()),
        )
    }

    /// The operator norm for the l∞ norm.
    pub fn norm_linf(self) -> (r: F)
        ensures
            r == self.norm_linf_spec(),
    {
        let m = self;
        m.x.x.abs().add(m.y.x.abs()).add(m.z.x.abs()).add(m.w.x.abs()).max(
            m.x.y.abs().add(m.y.y.abs()).add(m.z.y.abs()).add(m.w.y.abs()),
        ).max(m.x.z.abs().add(m.y.z.abs()).add(m.z.z.abs()).add(m.w.z.abs())).max(
            m.x.w.abs().add(m.y.w.abs()).add(m.z.w.abs()).add(m.w.w.abs()),
        )
    }

    /// The operator norm for the Euclidean norm: the largest singular value.
    pub fn norm_l2(self) -> (r: F)
        ensures
            r == self.norm_l2_spec(),
    {
        let e = self.transpose().mul(self).eigenvalues();
        e[0].re.max(e[1].re).max(e[2].re).max(e[3].re).sqrt()
    }
}

/// The l∞ norm is the l¹ norm of the transpose: rows of `M` are the columns
/// of `Mᵗ`, summed in the same order.
pub proof fn lemma_norm_linf_is_norm_l1_of_transpose2<F: Scalar>(m: Matrix2<F>)
    ensures
        m.norm_linf_spec() == m.transpose_spec().norm_l1_spec(),
{
}

/// The l∞ norm is the l¹ norm of the transpose, for 3×3 matrices.
pub proof fn lemma_norm_linf_is_norm_l1_of_transpose3<F: Scalar>(m: Matrix3<F>)
    ensures
        m.norm_linf_spec() == m.transpose_spec().norm_l1_spec(),
{
}

/// The l∞ norm is the l¹ norm of the transpose, for 4×4 matrices.
pub proof fn lemma_norm_linf_is_norm_l1_of_transpose4<F: Scalar>(m: Matrix4<F>)
    ensures
        m.norm_linf_spec() == m.transpose_spec().norm_l1_spec(),
{
}

} // verus!
