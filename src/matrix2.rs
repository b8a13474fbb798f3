//! 2×2 matrices, stored by columns.

use crate::scalar::Scalar;
use crate::vector::Vector2;
use vstd::prelude::*;

verus! {

/// The matrix whose columns are `x` and `y`; `m.x.y` is the entry in column 0, row 1.
#[derive(Clone, Copy, Debug)]
pub struct Matrix2<F> {
    pub x: Vector2<F>,
    pub y: Vector2<F>,
}

impl<F: Scalar> Matrix2<F> {
    pub open spec fn cols(x: Vector2<F>, y: Vector2<F>) -> Self {
        Matrix2 { x, y }
    }

    /// The diagonal matrix with `d` on its diagonal.
    pub open spec fn diagonal_spec(d: Vector2<F>) -> Self {
        let z = F::zero_spec();
        Matrix2 { x: Vector2 { x: d.x, y: z }, y: Vector2 { x: z, y: d.y } }
    }

    /// `s` times the identity.
    pub open spec fn value_spec(s: F) -> Self {
        Self::diagonal_spec(Vector2 { x: s, y: s })
    }

    pub open spec fn identity_spec() -> Self {
        Self::value_spec(F::one_spec())
    }

    pub open spec fn row_spec(self, r: int) -> Vector2<F> {
        if r == 0 {
            Vector2 { x: self.x.x, y: self.y.x }
        } else {
            Vector2 { x: self.x.y, y: self.y.y }
        }
    }

    pub open spec fn transpose_spec(self) -> Self {
        Matrix2 { x: self.row_spec(0), y: self.row_spec(1) }
    }

    pub open spec fn add_spec(self, o: Self) -> Self {
        Matrix2 { x: self.x.add_spec(o.x), y: self.y.add_spec(o.y) }
    }

    pub open spec fn sub_spec(self, o: Self) -> Self {
        Matrix2 { x: self.x.sub_spec(o.x), y: self.y.sub_spec(o.y) }
    }

    pub open spec fn div_spec(self, t: F) -> Self {
        Matrix2 { x: self.x.div_spec(t), y: self.y.div_spec(t) }
    }

    /// The image of the column `v`.
    pub open spec fn apply_spec(self, v: Vector2<F>) -> Vector2<F> {
        Vector2 { x: self.row_spec(0).dot_spec(v), y: self.row_spec(1).dot_spec(v) }
    }

    pub open spec fn mul_spec(self, o: Self) -> Self {
        Matrix2 { x: self.apply_spec(o.x), y: self.apply_spec(o.y) }
    }

    pub open spec fn trace_spec(self) -> F {
        self.x.x.add_spec(self.y.y)
    }

    pub open spec fn determinant_spec(self) -> F {
        self.x.x.mul_spec(self.y.y).sub_spec(self.y.x.mul_spec(self.x.y))
    }

    /// Whether the determinant is not approximately zero.
    pub open spec fn is_invertible_spec(self) -> bool {
        !self.determinant_spec().ulps_eq_spec(F::zero_spec())
    }

    /// Whether both entries off the diagonal are approximately zero.
    pub open spec fn is_diagonal_spec(self) -> bool {
        self.x.y.ulps_eq_spec(F::zero_spec()) && self.y.x.ulps_eq_spec(F::zero_spec())
    }

    /// The inverse by the adjugate, or `None` where the determinant is zero.
    pub open spec fn invert_spec(self) -> Option<Self> {
        let det = self.determinant_spec();
        if det.equal_spec(F::zero_spec()) {
            None
        } else {
            Some(
                Matrix2 {
                    x: Vector2 { x: self.y.y.div_spec(det), y: self.x.y.neg_spec().div_spec(det) },
                    y: Vector2 { x: self.y.x.neg_spec().div_spec(det), y: self.x.x.div_spec(det) },
                },
            )
        }
    }

    pub fn from_cols(x: Vector2<F>, y: Vector2<F>) -> (r: Self)
        ensures
            r == Self::cols(x, y),
    {
        Matrix2 { x, y }
    }

    /// The matrix with columns `(c0r0, c0r1)` and `(c1r0, c1r1)`.
    pub fn new(c0r0: F, c0r1: F, c1r0: F, c1r1: F) -> (r: Self)
        ensures
            r == Self::cols(Vector2 { x: c0r0, y: c0r1 }, Vector2 { x: c1r0, y: c1r1 }),
    {
        Matrix2 { x: Vector2::new(c0r0, c0r1), y: Vector2::new(c1r0, c1r1) }
    }

    pub fn from_diagonal(d: Vector2<F>) -> (r: Self)
        ensures
            r == Self::diagonal_spec(d),
    {
        let z = F::zero();
        Matrix2 { x: Vector2::new(d.x, z), y: Vector2::new(z, d.y) }
    }

    pub fn from_value(s: F) -> (r: Self)
        ensures
            r == Self::value_spec(s),
    {
        Self::from_diagonal(Vector2::new(s, s))
    }

    pub fn identity() -> (r: Self)
        ensures
            r == Self::identity_spec(),
    {
        Self::from_value(F::one())
    }

    pub fn row(self, r: usize) -> (v: Vector2<F>)
        ensures
            v == self.row_spec(r as int),
    {
        if r == 0 {
            Vector2::new(self.x.x, self.y.x)
        } else {
            Vector2::new(self.x.y, self.y.y)
        }
    }

    pub fn transpose(self) -> (r: Self)
        ensures
            r == self.transpose_spec(),
    {
        Matrix2 { x: self.row(0), y: self.row(1) }
    }

    pub fn add(self, o: Self) -> (r: Self)
        ensures
            r == self.add_spec(o),
    {
        Matrix2 { x: self.x.add(o.x), y: self.y.add(o.y) }
    }

    pub fn sub(self, o: Self) -> (r: Self)
        ensures
            r == self.sub_spec(o),
    {
        Matrix2 { x: self.x.sub(o.x), y: self.y.sub(o.y) }
    }

    pub fn div(self, t: F) -> (r: Self)
        ensures
            r == self.div_spec(t),
    {
        Matrix2 { x: self.x.div(t), y: self.y.div(t) }
    }

    pub fn apply(self, v: Vector2<F>) -> (r: Vector2<F>)
        ensures
            r == self.apply_spec(v),
    {
        Vector2::new(self.row(0).dot(v), self.row(1).dot(v))
    }

    pub fn mul(self, o: Self) -> (r: Self)
        ensures
            r == self.mul_spec(o),
    {
        Matrix2 { x: self.apply(o.x), y: self.apply(o.y) }
    }

    pub fn trace(self) -> (r: F)
        ensures
            r == self.trace_spec(),
    {
        self.x.x.add(self.y.y)
    }

    pub fn determinant(self) -> (r: F)
        ensures
            r == self.determinant_spec(),
    {
        self.x.x.mul(self.y.y).sub(self.y.x.mul(self.x.y))
    }

    pub fn is_invertible(self) -> (r: bool)
        ensures
            r == self.is_invertible_spec(),
    {
        !self.determinant().ulps_eq(F::zero())
    }

    pub fn is_diagonal(self) -> (r: bool)
        ensures
            r == self.is_diagonal_spec(),
    {
        self.x.y.ulps_eq(F::zero()) && self.y.x.ulps_eq(F::zero())
    }

    pub fn invert(self) -> (r: Option<Self>)
        ensures
            r == self.invert_spec(),
    {
        let det = self.determinant();
        if det.equal(F::zero()) {
            None
        } else {
            Some(
                Matrix2 {
                    x: Vector2::new(self.y.y.div(det), self.x.y.neg().div(det)),
                    y: Vector2::new(self.y.x.neg().div(det), self.x.x.div(det)),
                },
            )
        }
    }
}

} // verus!
