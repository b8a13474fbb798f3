//! The Iwasawa decomposition `M = KAN` by Gram-Schmidt, and the Cartan
//! decomposition `M = K exp(S)` through the eigenvectors of `MᵗM`.

use crate::matrix2::Matrix2;
use crate::matrix3::Matrix3;
use crate::scalar::{sqrt_epsilon, sqrt_epsilon_exec, two, two_exec, Scalar};
use crate::vector::{Vector2, Vector3};
use vstd::prelude::*;

verus! {

/// Orthogonal, diagonal and unit upper triangular factors.
pub type Kan2<F> = (Matrix2<F>, Matrix2<F>, Matrix2<F>);

pub type Kan3<F> = (Matrix3<F>, Matrix3<F>, Matrix3<F>);

impl<F: Scalar> Matrix2<F> {
    /// Gram-Schmidt on the columns: `K` holds the orthonormalised columns,
    /// `A` their lengths before normalising, `N` the projection
    /// coefficients above its unit diagonal. `None` once a squared length is
    /// not positive.
    pub open spec fn iwasawa_decomposition_spec(self) -> Option<Kan2<F>> {
        let z = F::zero_spec();
        let l = F::one_spec();
        let v0 = self.x;
        let mag0 = v0.dot_spec(v0);
        if mag0.le_spec(z) {
            None
        } else {
            let n0 = self.y.dot_spec(v0).div_spec(mag0);
            let v1 = self.y.sub_spec(v0.scale_spec(n0));
            let mag1 = v1.dot_spec(v1);
            if mag1.le_spec(z) {
                None
            } else {
                let a0 = mag0.sqrt_spec();
                let a1 = mag1.sqrt_spec();
                Some(
                    (
                        Matrix2 { x: v0.div_spec(a0), y: v1.div_spec(a1) },
                        Matrix2::diagonal_spec(Vector2 { x: a0, y: a1 }),
                        Matrix2 { x: Vector2 { x: l, y: z }, y: Vector2 { x: n0, y: l } },
                    ),
                )
            }
        }
    }

    /// Returns `(K, A, N)` with `M = KAN`: `K` orthonormal, `A` diagonal,
    /// `N` unit upper triangular.
    pub fn iwasawa_decomposition(self) -> (r: Option<Kan2<F>>)
        ensures
            r == self.iwasawa_decomposition_spec(),
            r matches Some(kan) ==> kan.1 == Matrix2::diagonal_spec(
                Vector2 { x: kan.1.x.x, y: kan.1.y.y },
            ) && kan.2.x == (Vector2 { x: F::one_spec(), y: F::zero_spec() }) && kan.2.y.y
                == F::one_spec(),
            r is None <==> self.x.magnitude2_spec().le_spec(F::zero_spec()) || self.y.sub_spec(
                self.x.scale_spec(self.y.dot_spec(self.x).div_spec(self.x.magnitude2_spec())),
            ).magnitude2_spec().le_spec(F::zero_spec()),
    {
        let z = F::zero();
        let l = F::one();
        let v0 = self.x;
        let mag0 = v0.dot(v0);
        if mag0.le(z) {
            return None;
        }
        let n0 = self.y.dot(v0).div(mag0);
        let v1 = self.y.sub(v0.scale(n0));
        let mag1 = v1.dot(v1);
        if mag1.le(z) {
            return None;
        }
        let a0 = mag0.sqrt();
        let a1 = mag1.sqrt();
        Some(
            (
                Matrix2::from_cols(v0.div(a0), v1.div(a1)),
                Matrix2::from_diagonal(Vector2::new(a0, a1)),
                Matrix2::new(l, z, n0, l),
            ),
        )
    }
}

impl<F: Scalar> Matrix3<F> {
    /// Gram-Schmidt on the columns, as for 2×2 matrices.
    pub open spec fn iwasawa_decomposition_spec(self) -> Option<Kan3<F>> {
        let z = F::zero_spec();
        let l = F::one_spec();
        let v0 = self.x;
        let mag0 = v0.dot_spec(v0);
        if mag0.le_spec(z) {
            None
        } else {
            let n0 = self.y.dot_spec(v0).div_spec(mag0);
            let v1 = self.y.sub_spec(v0.scale_spec(n0));
            let mag1 = v1.dot_spec(v1);
            if mag1.le_spec(z) {
                None
            } else {
                let n1 = self.z.dot_spec(v0).div_spec(mag0);
                let n2 = self.z.dot_spec(v1).div_spec(mag1);
                let v2 = self.z.sub_spec(v0.scale_spec(n1)).sub_spec(v1.scale_spec(n2));
                let mag2 = v2.dot_spec(v2);
                if mag2.le_spec(z) {
                    None
                } else {
                    let a0 = mag0.sqrt_spec();
                    let a1 = mag1.sqrt_spec();
                    let a2 = mag2.sqrt_spec();
                    Some(
                        (
                            Matrix3 { x: v0.div_spec(a0), y: v1.div_spec(a1), z: v2.div_spec(a2) },
                            Matrix3::diagonal_spec(Vector3 { x: a0, y: a1, z: a2 }),
                            Matrix3 {
                                x: Vector3 { x: l, y: z, z: z },
                                y: Vector3 { x: n0, y: l, z: z },
                                z: Vector3 { x: n1, y: n2, z: l },
                            },
                        ),
                    )
                }
            }
        }
    }

    /// Returns `(K, A, N)` with `M = KAN`: `K` orthonormal, `A` diagonal,
    /// `N` unit upper triangular.
    pub fn iwasawa_decomposition(self) -> (r: Option<Kan3<F>>)
        ensures
            r == self.iwasawa_decomposition_spec(),
            r matches Some(kan) ==> kan.1 == Matrix3::diagonal_spec(
                Vector3 { x: kan.1.x.x, y: kan.1.y.y, z: kan.1.z.z },
            ) && kan.2.x == (Vector3 { x: F::one_spec(), y: F::zero_spec(), z: F::zero_spec() })
                && kan.2.y.y == F::one_spec() && kan.2.y.z == F::zero_spec() && kan.2.z.z
                == F::one_spec(),
            self.x.magnitude2_spec().le_spec(F::zero_spec()) ==> r is None,
    {
        let z = F::zero();
        let l = F::one();
        let v0 = self.x;
        let mag0 = v0.dot(v0);
        if mag0.le(z) {
            return None;
        }
        let n0 = self.y.dot(v0).div(mag0);
        let v1 = self.y.sub(v0.scale(n0));
        let mag1 = v1.dot(v1);
        if mag1.le(z) {
            return None;
        }
        let n1 = self.z.dot(v0).div(mag0);
        let n2 = self.z.dot(v1).div(mag1);
        let v2 = self.z.sub(v0.scale(n1)).sub(v1.scale(n2));
        let mag2 = v2.dot(v2);
        if mag2.le(z) {
            return None;
        }
        let a0 = mag0.sqrt();
        let a1 = mag1.sqrt();
        let a2 = mag2.sqrt();
        Some(
            (
                Matrix3::from_cols(v0.div(a0), v1.div(a1), v2.div(a2)),
                Matrix3::from_diagonal(Vector3::new(a0, a1, a2)),
                Matrix3::from_cols(
                    Vector3::new(l, z, z),
                    Vector3::new(n0, l, z),
                    Vector3::new(n1, n2, l),
                ),
            ),
        )
    }
}

/// A unit vector spanning the kernel of a 2×2 matrix of rank one: the row of
/// larger squared length, turned by a right angle and normalised.
pub open spec fn solve2_spec<F: Scalar>(mat: Matrix2<F>) -> Vector2<F> {
    let t = mat.transpose_spec();
    if t.y.magnitude2_spec().lt_spec(t.x.magnitude2_spec()) {
        Vector2 { x: t.x.y.neg_spec(), y: t.x.x }.normalize_spec()
    } else {
        Vector2 { x: t.y.y.neg_spec(), y: t.y.x }.normalize_spec()
    }
}

pub fn solve2<F: Scalar>(mat: Matrix2<F>) -> (v: Vector2<F>)
    ensures
        v == solve2_spec(mat),
{
    let t = mat.transpose();
    if t.y.magnitude2().lt(t.x.magnitude2()) {
        Vector2::new(t.x.y.neg(), t.x.x).normalize()
    } else {
        Vector2::new(t.y.y.neg(), t.y.x).normalize()
    }
}

/// Which of three candidates is largest by the comparisons `c0 > c1`,
/// `c1 > c2` and `c2 > c0`: `0`, `1`, or else `2`.
pub open spec fn pick3(g01: bool, g12: bool, g20: bool) -> nat {
    if g01 && !g20 {
        0
    } else if !g01 && g12 {
        1
    } else {
        2
    }
}

/// A unit vector spanning the kernel of a 3×3 matrix of rank two: the
/// normalised cross product of two rows, the pair whose cross product is
/// longest.
pub open spec fn solve3_spec<F: Scalar>(mat: Matrix3<F>) -> Vector3<F> {
    let t = mat.transpose_spec();
    let z0 = t.y.cross_spec(t.z);
    let z1 = t.z.cross_spec(t.x);
    let z2 = t.x.cross_spec(t.y);
    let m0 = z0.magnitude2_spec();
    let m1 = z1.magnitude2_spec();
    let m2 = z2.magnitude2_spec();
    let i = pick3(m1.lt_spec(m0), m2.lt_spec(m1), m0.lt_spec(m2));
    if i == 0 {
        z0.normalize_spec()
    } else if i == 1 {
        z1.normalize_spec()
    } else {
        z2.normalize_spec()
    }
}

pub fn solve3<F: Scalar>(mat: Matrix3<F>) -> (v: Vector3<F>)
    ensures
        v == solve3_spec(mat),
{
    let t = mat.transpose();
    let z0 = t.y.cross(t.z);
    let z1 = t.z.cross(t.x);
    let z2 = t.x.cross(t.y);
    let m0 = z0.magnitude2();
    let m1 = z1.magnitude2();
    let m2 = z2.magnitude2();
    let g01 = m1.lt(m0);
    let g12 = m2.lt(m1);
    let g20 = m0.lt(m2);
    if g01 && !g20 {
        z0.normalize()
    } else if !g01 && g12 {
        z1.normalize()
    } else {
        z2.normalize()
    }
}

/// An orthonormal pair orthogonal to a nonzero `v`: first `u`, a unit vector
/// with one component zeroed, built around the component of `v` of largest
/// absolute value; then the normalised `v × u`.
pub open spec fn get_normals_spec<F: Scalar>(v: Vector3<F>) -> (Vector3<F>, Vector3<F>) {
    let z = F::zero_spec();
    let a0 = v.x.abs_spec();
    let a1 = v.y.abs_spec();
    let a2 = v.z.abs_spec();
    let i = pick3(a1.lt_spec(a0), a2.lt_spec(a1), a0.lt_spec(a2));
    let u = if i == 0 {
        Vector3 { x: v.y.neg_spec(), y: v.x, z }.normalize_spec()
    } else if i == 1 {
        Vector3 { x: v.y, y: v.x.neg_spec(), z }.normalize_spec()
    } else {
        Vector3 { x: v.z, y: z, z: v.x.neg_spec() }.normalize_spec()
    };
    (u, v.cross_spec(u).normalize_spec())
}

pub fn get_normals<F: Scalar>(v: Vector3<F>) -> (r: (Vector3<F>, Vector3<F>))
    ensures
        r == get_normals_spec(v),
        r.1 == v.cross_spec(r.0).normalize_spec(),
{
    let z = F::zero();
    let a0 = v.x.abs();
    let a1 = v.y.abs();
    let a2 = v.z.abs();
    let g01 = a1.lt(a0);
    let g12 = a2.lt(a1);
    let g20 = a0.lt(a2);
    let u = if g01 && !g20 {
        Vector3::new(v.y.neg(), v.x, z).normalize()
    } else if !g01 && g12 {
        Vector3::new(v.y, v.x.neg(), z).normalize()
    } else {
        Vector3::new(v.z, z, v.x.neg()).normalize()
    };
    (u, v.cross(u).normalize())
}

/// An orthonormal pair spanning the kernel of a 3×3 matrix of rank one: the
/// [`get_normals_spec`] of its row of largest squared length.
pub open spec fn degenerate2_solve3_spec<F: Scalar>(mat: Matrix3<F>) -> (Vector3<F>, Vector3<F>) {
    let t = mat.transpose_spec();
    let m0 = t.x.magnitude2_spec();
    let m1 = t.y.magnitude2_spec();
    let m2 = t.z.magnitude2_spec();
    let i = pick3(m1.lt_spec(m0), m2.lt_spec(m1), m0.lt_spec(m2));
    if i == 0 {
        get_normals_spec(t.x)
    } else if i == 1 {
        get_normals_spec(t.y)
    } else {
        get_normals_spec(t.z)
    }
}

pub fn degenerate2_solve3<F: Scalar>(mat: Matrix3<F>) -> (r: (Vector3<F>, Vector3<F>))
    ensures
        r == degenerate2_solve3_spec(mat),
{
    let t = mat.transpose();
    let m0 = t.x.magnitude2();
    let m1 = t.y.magnitude2();
    let m2 = t.z.magnitude2();
    let g01 = m1.lt(m0);
    let g12 = m2.lt(m1);
    let g20 = m0.lt(m2);
    if g01 && !g20 {
        get_normals(t.x)
    } else if !g01 && g12 {
        get_normals(t.y)
    } else {
        get_normals(t.z)
    }
}

/// How three eigenvalues cluster: which pairs lie within the tolerance.
#[derive(Clone, Copy, Debug, PartialEq, Eq, Structural)]
pub enum Spectrum {
    /// No pair is close.
    Distinct,
    /// Only the first and the second are close.
    Pair01,
    /// Only the second and the third are close.
    Pair12,
    /// Only the third and the first are close.
    Pair20,
    /// At least two pairs are close.
    AllEqual,
}

pub open spec fn spectrum_spec<F: Scalar>(k0: F, k1: F, k2: F, tol: F) -> Spectrum {
    let c01 = k0.sub_spec(k1).abs_spec().lt_spec(tol);
    let c12 = k1.sub_spec(k2).abs_spec().lt_spec(tol);
    let c20 = k2.sub_spec(k0).abs_spec().lt_spec(tol);
    if !c01 && !c12 && !c20 {
        Spectrum::Distinct
    } else if c01 && !c12 && !c20 {
        Spectrum::Pair01
    } else if !c01 && c12 && !c20 {
        Spectrum::Pair12
    } else if !c01 && !c12 && c20 {
        Spectrum::Pair20
    } else {
        Spectrum::AllEqual
    }
}

/// Clusters three eigenvalues, `tol` apart at least to count as distinct.
pub fn spectrum<F: Scalar>(k0: F, k1: F, k2: F, tol: F) -> (s: Spectrum)
    ensures
        s == spectrum_spec(k0, k1, k2, tol),
{
    let c01 = k0.sub(k1).abs().lt(tol);
    let c12 = k1.sub(k2).abs().lt(tol);
    let c20 = k2.sub(k0).abs().lt(tol);
    if !c01 && !c12 && !c20 {
        Spectrum::Distinct
    } else if c01 && !c12 && !c20 {
        Spectrum::Pair01
    } else if !c01 && c12 && !c20 {
        Spectrum::Pair12
    } else if !c01 && !c12 && c20 {
        Spectrum::Pair20
    } else {
        Spectrum::AllEqual
    }
}

/// `k·diag(1/√D)·kᵗ` with `D = kᵗak`: for an orthonormal eigenbasis `k` of
/// `a = MᵗM`, the inverse of the positive square root of `a`.
pub open spec fn inverse_root2<F: Scalar>(a: Matrix2<F>, k: Matrix2<F>) -> Matrix2<F> {
    let kt = k.transpose_spec();
    let d = kt.mul_spec(a).mul_spec(k);
    let l = F::one_spec();
    let q = Vector2 { x: l.div_spec(d.x.x.sqrt_spec()), y: l.div_spec(d.y.y.sqrt_spec()) };
    k.mul_spec(Matrix2::diagonal_spec(q)).mul_spec(kt)
}

/// `k·diag(ln D / 2)·kᵗ` with `D = kᵗak`: the logarithm of the positive
/// square root of `a`.
pub open spec fn log_factor2<F: Scalar>(a: Matrix2<F>, k: Matrix2<F>) -> Matrix2<F> {
    let kt = k.transpose_spec();
    let d = kt.mul_spec(a).mul_spec(k);
    let x = Vector2 { x: d.x.x.ln_spec(), y: d.y.y.ln_spec() }.div_spec(two());
    k.mul_spec(Matrix2::diagonal_spec(x)).mul_spec(kt)
}

/// The factors from an eigenbasis `k` of `a = MᵗM`: `K = M·R⁻¹` for `R⁻¹`
/// the [`inverse_root2`], and `S` the [`log_factor2`].
pub open spec fn cartan_from_basis2<F: Scalar>(m: Matrix2<F>, a: Matrix2<F>, k: Matrix2<F>) -> (
    Matrix2<F>,
    Matrix2<F>,
) {
    (m.mul_spec(inverse_root2(a, k)), log_factor2(a, k))
}

fn cartan_from_basis2_exec<F: Scalar>(m: Matrix2<F>, a: Matrix2<F>, k: Matrix2<F>) -> (r: (
    Matrix2<F>,
    Matrix2<F>,
))
    ensures
        r == cartan_from_basis2(m, a, k),
{
    let kt = k.transpose();
    let d = kt.mul(a).mul(k);
    let l = F::one();
    let q = Vector2::new(l.div(d.x.x.sqrt()), l.div(d.y.y.sqrt()));
    let inv = k.mul(Matrix2::from_diagonal(q)).mul(kt);
    let x = Vector2::new(d.x.x.ln(), d.y.y.ln()).div(two_exec());
    let s = k.mul(Matrix2::from_diagonal(x)).mul(kt);
    (m.mul(inv), s)
}

/// An orthonormal eigenbasis of the symmetric `a`: the coordinate axes where
/// `a` is diagonal, or where its two eigenvalues lie within `√ε` (then `a` is
/// a multiple of the identity); else the unit eigenvector of each, as
/// columns.
pub open spec fn eigenbasis2<F: Scalar>(a: Matrix2<F>) -> Matrix2<F> {
    let e = a.eigenvalues_spec();
    if a.is_diagonal_spec() {
        Matrix2::identity_spec()
    } else if e.0.re.sub_spec(e.1.re).abs_spec().lt_spec(sqrt_epsilon()) {
        Matrix2::identity_spec()
    } else {
        Matrix2 {
            x: solve2_spec(a.sub_spec(Matrix2::value_spec(e.0.re))),
            y: solve2_spec(a.sub_spec(Matrix2::value_spec(e.1.re))),
        }
    }
}

fn eigenbasis2_exec<F: Scalar>(a: Matrix2<F>) -> (k: Matrix2<F>)
    ensures
        k == eigenbasis2(a),
{
    if a.is_diagonal() {
        return Matrix2::identity();
    }
    let e = a.eigenvalues();
    if e[0].re.sub(e[1].re).abs().lt(sqrt_epsilon_exec()) {
        Matrix2::identity()
    } else {
        Matrix2::from_cols(
            solve2(a.sub(Matrix2::from_value(e[0].re))),
            solve2(a.sub(Matrix2::from_value(e[1].re))),
        )
    }
}

/// `k·diag(1/√D)·kᵗ` with `D = kᵗak`, as for 2×2 matrices.
pub open spec fn inverse_root3<F: Scalar>(a: Matrix3<F>, k: Matrix3<F>) -> Matrix3<F> {
    let kt = k.transpose_spec();
    let d = kt.mul_spec(a).mul_spec(k);
    let l = F::one_spec();
    let q = Vector3 {
        x: l.div_spec(d.x.x.sqrt_spec()),
        y: l.div_spec(d.y.y.sqrt_spec()),
        z: l.div_spec(d.z.z.sqrt_spec()),
    };
    k.mul_spec(Matrix3::diagonal_spec(q)).mul_spec(kt)
}

/// `k·diag(ln D / 2)·kᵗ` with `D = kᵗak`, as for 2×2 matrices.
pub open spec fn log_factor3<F: Scalar>(a: Matrix3<F>, k: Matrix3<F>) -> Matrix3<F> {
    let kt = k.transpose_spec();
    let d = kt.mul_spec(a).mul_spec(k);
    let x = Vector3 { x: d.x.x.ln_spec(), y: d.y.y.ln_spec(), z: d.z.z.ln_spec() }.div_spec(two());
    k.mul_spec(Matrix3::diagonal_spec(x)).mul_spec(kt)
}

/// As [`cartan_from_basis2`], with `K = M·R⁻¹` then orthonormalised once more
/// by Gram-Schmidt against rounding drift; where Gram-Schmidt meets a column
/// of squared length `<= 0`, `M·R⁻¹` itself.
pub open spec fn cartan_from_basis3<F: Scalar>(m: Matrix3<F>, a: Matrix3<F>, k: Matrix3<F>) -> (
    Matrix3<F>,
    Matrix3<F>,
) {
    let q = m.mul_spec(inverse_root3(a, k));
    let s = log_factor3(a, k);
    match q.iwasawa_decomposition_spec() {
        None => (q, s),
        Some(kan) => (kan.0, s),
    }
}

fn cartan_from_basis3_exec<F: Scalar>(m: Matrix3<F>, a: Matrix3<F>, k: Matrix3<F>) -> (r: (
    Matrix3<F>,
    Matrix3<F>,
))
    ensures
        r == cartan_from_basis3(m, a, k),
{
    let kt = k.transpose();
    let d = kt.mul(a).mul(k);
    let l = F::one();
    let r = Vector3::new(l.div(d.x.x.sqrt()), l.div(d.y.y.sqrt()), l.div(d.z.z.sqrt()));
    let inv = k.mul(Matrix3::from_diagonal(r)).mul(kt);
    let x = Vector3::new(d.x.x.ln(), d.y.y.ln(), d.z.z.ln()).div(two_exec());
    let s = k.mul(Matrix3::from_diagonal(x)).mul(kt);
    let q = m.mul(inv);
    match q.iwasawa_decomposition() {
        None => (q, s),
        Some(kan) => (kan.0, s),
    }
}

/// The unit eigenvector of `a` for the simple eigenvalue `k`.
pub open spec fn eigenvector3<F: Scalar>(a: Matrix3<F>, k: F) -> Vector3<F> {
    solve3_spec(a.sub_spec(Matrix3::value_spec(k)))
}

/// An orthonormal eigenbasis of the symmetric `a`, by how its eigenvalues
/// cluster within `√ε`: distinct ones give one eigenvector each; a close
/// pair shares the plane that [`degenerate2_solve3_spec`] spans at their
/// mean; where all are close, `a` is a multiple of the identity and the
/// coordinate axes serve. Where `a` is diagonal the axes serve at once.
pub open spec fn eigenbasis3<F: Scalar>(a: Matrix3<F>) -> Matrix3<F> {
    let e = a.eigenvalues_spec();
    let (k0, k1, k2) = (e.0.re, e.1.re, e.2.re);
    let mean = |u: F, v: F| u.add_spec(v).div_spec(two());
    if a.is_diagonal_spec() {
        Matrix3::identity_spec()
    } else {
        match spectrum_spec(k0, k1, k2, sqrt_epsilon()) {
            Spectrum::Distinct => Matrix3 {
                x: eigenvector3(a, k0),
                y: eigenvector3(a, k1),
                z: eigenvector3(a, k2),
            },
            Spectrum::Pair01 => {
                let (v0, v1) = degenerate2_solve3_spec(a.sub_spec(Matrix3::value_spec(mean(k0, k1))));
                Matrix3 { x: v0, y: v1, z: eigenvector3(a, k2) }
            },
            Spectrum::Pair12 => {
                let (v0, v1) = degenerate2_solve3_spec(a.sub_spec(Matrix3::value_spec(mean(k1, k2))));
                Matrix3 { x: v0, y: v1, z: eigenvector3(a, k0) }
            },
            Spectrum::Pair20 => {
                let (v0, v1) = degenerate2_solve3_spec(a.sub_spec(Matrix3::value_spec(mean(k2, k0))));
                Matrix3 { x: v0, y: v1, z: eigenvector3(a, k1) }
            },
            Spectrum::AllEqual => Matrix3::identity_spec(),
        }
    }
}

fn eigenbasis3_exec<F: Scalar>(a: Matrix3<F>) -> (k: Matrix3<F>)
    ensures
        k == eigenbasis3(a),
{
    if a.is_diagonal() {
        return Matrix3::identity();
    }
    let e = a.eigenvalues();
    let (k0, k1, k2) = (e[0].re, e[1].re, e[2].re);
    let two = two_exec::<F>();
    match spectrum(k0, k1, k2, sqrt_epsilon_exec()) {
        Spectrum::Distinct => Matrix3::from_cols(
            solve3(a.sub(Matrix3::from_value(k0))),
            solve3(a.sub(Matrix3::from_value(k1))),
            solve3(a.sub(Matrix3::from_value(k2))),
        ),
        Spectrum::Pair01 => {
            let (v0, v1) = degenerate2_solve3(a.sub(Matrix3::from_value(k0.add(k1).div(two))));
            Matrix3::from_cols(v0, v1, solve3(a.sub(Matrix3::from_value(k2))))
        },
        Spectrum::Pair12 => {
            let (v0, v1) = degenerate2_solve3(a.sub(Matrix3::from_value(k1.add(k2).div(two))));
            Matrix3::from_cols(v0, v1, solve3(a.sub(Matrix3::from_value(k0))))
        },
        Spectrum::Pair20 => {
            let (v0, v1) = degenerate2_solve3(a.sub(Matrix3::from_value(k2.add(k0).div(two))));
            Matrix3::from_cols(v0, v1, solve3(a.sub(Matrix3::from_value(k1))))
        },
        Spectrum::AllEqual => Matrix3::identity(),
    }
}

impl<F: Scalar> Matrix2<F> {
    /// The factors `(K, S)` with `M = K exp(S)`, from `a = MᵗM`: `None`
    /// where `a` is not invertible, else [`cartan_from_basis2`] on the
    /// [`eigenbasis2`] of `a`.
    pub open spec fn cartan_decomposition_spec(self) -> Option<(Matrix2<F>, Matrix2<F>)> {
        let m = self;
        let a = m.transpose_spec().mul_spec(m);
        if !a.is_invertible_spec() {
            None
        } else {
            Some(cartan_from_basis2(m, a, eigenbasis2(a)))
        }
    }

    /// Returns `(K, S)` with `M = K exp(S)`: `K` orthogonal, `S` symmetric.
    /// `None` exactly where `MᵗM` is not invertible.
    pub fn cartan_decomposition(self) -> (r: Option<(Matrix2<F>, Matrix2<F>)>)
        ensures
            r == self.cartan_decomposition_spec(),
            r is None <==> !self.transpose_spec().mul_spec(self).is_invertible_spec(),
    {
        let m = self;
        let a = m.transpose().mul(m);
        if !a.is_invertible() {
            return None;
        }
        Some(cartan_from_basis2_exec(m, a, eigenbasis2_exec(a)))
    }
}

impl<F: Scalar> Matrix3<F> {
    /// The factors `(K, S)` with `M = K exp(S)`, from `a = MᵗM`: `None`
    /// where `a` is not invertible, else [`cartan_from_basis3`] on the
    /// [`eigenbasis3`] of `a`.
    pub open spec fn cartan_decomposition_spec(self) -> Option<(Matrix3<F>, Matrix3<F>)> {
        let m = self;
        let a = m.transpose_spec().mul_spec(m);
        if !a.is_invertible_spec() {
            None
        } else {
            Some(cartan_from_basis3(m, a, eigenbasis3(a)))
        }
    }

    /// Returns `(K, S)` with `M = K exp(S)`: `K` orthogonal, `S` symmetric.
    /// `None` exactly where `MᵗM` is not invertible.
    pub fn cartan_decomposition(self) -> (r: Option<(Matrix3<F>, Matrix3<F>)>)
        ensures
            r == self.cartan_decomposition_spec(),
            r is None <==> !self.transpose_spec().mul_spec(self).is_invertible_spec(),
    {
        let m = self;
        let a = m.transpose().mul(m);
        if !a.is_invertible() {
            return None;
        }
        Some(cartan_from_basis3_exec(m, a, eigenbasis3_exec(a)))
    }
}

} // verus!
