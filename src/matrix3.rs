//! 3×3 matrices, stored by columns.

use crate::scalar::Scalar;
use crate::vector::Vector3;
use vstd::prelude::*;

verus! {

/// The matrix whose columns are `x`, `y` and `z`; `m.x.y` is the entry in column 0, row 1.
#[derive(Clone, Copy, Debug)]
pub struct Matrix3<F> {
    pub x: Vector3<F>,
    pub y: Vector3<F>,
    pub z: Vector3<F>,
}

impl<F: Scalar> Matrix3<F> {
    pub open spec fn cols(x: Vector3<F>, y: Vector3<F>, z: Vector3<F>) -> Self {
        Matrix3 { x, y, z }
    }

    /// The diagonal matrix with `d` on its diagonal.
    pub open spec fn diagonal_spec(d: Vector3<F>) -> Self {
        let o = F::zero_spec();
        Matrix3 {
            x: Vector3 { x: d.x, y: o, z: o },
            y: Vector3 { x: o, y: d.y, z: o },
            z: Vector3 { x: o, y: o, z: d.z },
        }
    }

    /// `s` times the identity.
    pub open spec fn value_spec(s: F) -> Self {
        Self::diagonal_spec(Vector3 { x: s, y: s, z: s })
    }

    pub open spec fn identity_spec() -> Self {
        Self::value_spec(F::one_spec())
    }

    pub open spec fn row_spec(self, r: int) -> Vector3<F> {
        if r == 0 {
            Vector3 { x: self.x.x, y: self.y.x, z: self.z.x }
        } else if r == 1 {
            Vector3 { x: self.x.y, y: self.y.y, z: self.z.y }
        } else {
            Vector3 { x: self.x.z, y: self.y.z, z: self.z.z }
        }
    }

    pub open spec fn transpose_spec(self) -> Self {
        Matrix3 { x: self.row_spec(0), y: self.row_spec(1), z: self.row_spec(2) }
    }

    pub open spec fn add_spec(self, o: Self) -> Self {
        Matrix3 { x: self.x.add_spec(o.x), y: self.y.add_spec(o.y), z: self.z.add_spec(o.z) }
    }

    pub open spec fn sub_spec(self, o: Self) -> Self {
        Matrix3 { x: self.x.sub_spec(o.x), y: self.y.sub_spec(o.y), z: self.z.sub_spec(o.z) }
    }

    pub open spec fn div_spec(self, t: F) -> Self {
        Matrix3 { x: self.x.div_spec(t), y: self.y.div_spec(t), z: self.z.div_spec(t) }
    }

    /// The image of the column `v`.
    pub open spec fn apply_spec(self, v: Vector3<F>) -> Vector3<F> {
        Vector3 {
            x: self.row_spec(0).dot_spec(v),
            y: self.row_spec(1).dot_spec(v),
            z: self.row_spec(2).dot_spec(v),
        }
    }

    pub open spec fn mul_spec(self, o: Self) -> Self {
        Matrix3 { x: self.apply_spec(o.x), y: self.apply_spec(o.y), z: self.apply_spec(o.z) }
    }

    pub open spec fn trace_spec(self) -> F {
        self.x.x.add_spec(self.y.y).add_spec(self.z.z)
    }

    /// The determinant, by expansion along the first row.
    pub open spec fn determinant_spec(self) -> F {
        let m = self;
        m.x.x.mul_spec(m.y.y.mul_spec(m.z.z).sub_spec(m.z.y.mul_spec(m.y.z))).sub_spec(
            m.y.x.mul_spec(m.x.y.mul_spec(m.z.z).sub_spec(m.z.y.mul_spec(m.x.z))),
        ).add_spec(m.z.x.mul_spec(m.x.y.mul_spec(m.y.z).sub_spec(m.y.y.mul_spec(m.x.z))))
    }

    /// Whether the determinant is not approximately zero.
    pub open spec fn is_invertible_spec(self) -> bool {
        !self.determinant_spec().ulps_eq_spec(F::zero_spec())
    }

    /// Whether every entry off the diagonal is approximately zero.
    pub open spec fn is_diagonal_spec(self) -> bool {
        let z = F::zero_spec();
        self.x.y.ulps_eq_spec(z) && self.x.z.ulps_eq_spec(z) && self.y.x.ulps_eq_spec(z)
            && self.y.z.ulps_eq_spec(z) && self.z.x.ulps_eq_spec(z) && self.z.y.ulps_eq_spec(z)
    }

    /// The inverse by the adjugate (cross products of the columns), or `None`
    /// where the determinant is zero.
    pub open spec fn invert_spec(self) -> Option<Self> {
        let det = self.determinant_spec();
        if det.equal_spec(F::zero_spec()) {
            None
        } else {
            Some(
                Matrix3 {
                    x: self.y.cross_spec(self.z).div_spec(det),
                    y: self.z.cross_spec(self.x).div_spec(det),
                    z: self.x.cross_spec(self.y).div_spec(det),
                }.transpose_spec(),
            )
        }
    }

    pub fn from_cols(x: Vector3<F>, y: Vector3<F>, z: Vector3<F>) -> (r: Self)
        ensures
            r == Self::cols(x, y, z),
    {
        Matrix3 { x, y, z }
    }

    /// The matrix with the given entries, listed column by column.
    pub fn new(
        c0r0: F, c0r1: F, c0r2: F,
        c1r0: F, c1r1: F, c1r2: F,
        c2r0: F, c2r1: F, c2r2: F,
    ) -> (r: Self)
        ensures
            r == Self::cols(
                Vector3 { x: c0r0, y: c0r1, z: c0r2 },
                Vector3 { x: c1r0, y: c1r1, z: c1r2 },
                Vector3 { x: c2r0, y: c2r1, z: c2r2 },
            ),
    {
        Matrix3 {
            x: Vector3::new(c0r0, c0r1, c0r2),
            y: Vector3::new(c1r0, c1r1, c1r2),
            z: Vector3::new(c2r0, c2r1, c2r2),
        }
    }

    pub fn from_diagonal(d: Vector3<F>) -> (r: Self)
        ensures
            r == Self::diagonal_spec(d),
    {
        let o = F::zero();
        Matrix3 {
            x: Vector3::new(d.x, o, o),
            y: Vector3::new(o, d.y, o),
            z: Vector3::new(o, o, d.z),
        }
    }

    pub fn from_value(s: F) -> (r: Self)
        ensures
            r == Self::value_spec(s),
    {
        Self::from_diagonal(Vector3::new(s, s, s))
    }

    pub fn identity() -> (r: Self)
        ensures
            r == Self::identity_spec(),
    {
        Self::from_value(F::one())
    }

    pub fn row(self, r: usize) -> (v: Vector3<F>)
        ensures
            v == self.row_spec(r as int),
    {
        if r == 0 {
            Vector3::new(self.x.x, self.y.x, self.z.x)
        } else if r == 1 {
            Vector3::new(self.x.y, self.y.y, self.z.y)
        } else {
            Vector3::new(self.x.z, self.y.z, self.z.z)
        }
    }

    pub fn transpose(self) -> (r: Self)
        ensures
            r == self.transpose_spec(),
    {
        Matrix3 { x: self.row(0), y: self.row(1), z: self.row(2) }
    }

    pub fn add(self, o: Self) -> (r: Self)
        ensures
            r == self.add_spec(o),
    {
        Matrix3 { x: self.x.add(o.x), y: self.y.add(o.y), z: self.z.add(o.z) }
    }

    pub fn sub(self, o: Self) -> (r: Self)
        ensures
            r == self.sub_spec(o),
    {
        Matrix3 { x: self.x.sub(o.x), y: self.y.sub(o.y), z: self.z.sub(o.z) }
    }

    pub fn div(self, t: F) -> (r: Self)
        ensures
            r == self.div_spec(t),
    {
        Matrix3 { x: self.x.div(t), y: self.y.div(t), z: self.z.div(t) }
    }

    pub fn apply(self, v: Vector3<F>) -> (r: Vector3<F>)
        ensures
            r == self.apply_spec(v),
    {
        Vector3::new(self.row(0).dot(v), self.row(1).dot(v), self.row(2).dot(v))
    }

    pub fn mul(self, o: Self) -> (r: Self)
        ensures
            r == self.mul_spec(o),
    {
        Matrix3 { x: self.apply(o.x), y: self.apply(o.y), z: self.apply(o.z) }
    }

    pub fn trace(self) -> (r: F)
        ensures
            r == self.trace_spec(),
    {
        self.x.x.add(self.y.y).add(self.z.z)
    }

    pub fn determinant(self) -> (r: F)
        ensures
            r == self.determinant_spec(),
    {
        let m = self;
        m.x.x.mul(m.y.y.mul(m.z.z).sub(m.z.y.mul(m.y.z))).sub(
            m.y.x.mul(m.x.y.mul(m.z.z).sub(m.z.y.mul(m.x.z))),
        ).add(m.z.x.mul(m.x.y.mul(m.y.z).sub(m.y.y.mul(m.x.z))))
    }

    pub fn is_invertible(self) -> (r: bool)
        ensures
            r == self.is_invertible_spec(),
    {
        !self.determinant().ulps_eq(F::zero())
    }

    pub fn is_diagonal(self) -> (r: bool)
        ensures
            r == self.is_diagonal_spec(),
    {
        let z = F::zero();
        self.x.y.ulps_eq(z) && self.x.z.ulps_eq(z) && self.y.x.ulps_eq(z) && self.y.z.ulps_eq(z)
            && self.z.x.ulps_eq(z) && self.z.y.ulps_eq(z)
    }

    pub fn invert(self) -> (r: Option<Self>)
        ensures
            r == self.invert_spec(),
    {
        let det = self.determinant();
        if det.equal(F::zero()) {
            None
        } else {
            Some(
                Matrix3 {
                    x: self.y.cross(self.z).div(det),
                    y: self.z.cross(self.x).div(det),
                    z: self.x.cross(self.y).div(det),
                }.transpose(),
            )
        }
    }
}

} // verus!
