//! 4×4 matrices, stored by columns.

use crate::matrix3::Matrix3;
use crate::scalar::Scalar;
use crate::vector::{Vector3, Vector4};
use vstd::prelude::*;

verus! {

/// The matrix whose columns are `x`, `y`, `z` and `w`; `m.x.y` is the entry
/// in column 0, row 1.
#[derive(Clone, Copy, Debug)]
pub struct Matrix4<F> {
    pub x: Vector4<F>,
    pub y: Vector4<F>,
    pub z: Vector4<F>,
    pub w: Vector4<F>,
}

impl<F: Scalar> Matrix4<F> {
    pub open spec fn identity_spec() -> Self {
        let o = F::zero_spec();
        let l = F::one_spec();
        Matrix4 {
            x: Vector4 { x: l, y: o, z: o, w: o },
            y: Vector4 { x: o, y: l, z: o, w: o },
            z: Vector4 { x: o, y: o, z: l, w: o },
            w: Vector4 { x: o, y: o, z: o, w: l },
        }
    }

    pub open spec fn row_spec(self, r: int) -> Vector4<F> {
        if r == 0 {
            Vector4 { x: self.x.x, y: self.y.x, z: self.z.x, w: self.w.x }
        } else if r == 1 {
            Vector4 { x: self.x.y, y: self.y.y, z: self.z.y, w: self.w.y }
        } else if r == 2 {
            Vector4 { x: self.x.z, y: self.y.z, z: self.z.z, w: self.w.z }
        } else {
            Vector4 { x: self.x.w, y: self.y.w, z: self.z.w, w: self.w.w }
        }
    }

    pub open spec fn transpose_spec(self) -> Self {
        Matrix4 { x: self.row_spec(0), y: self.row_spec(1), z: self.row_spec(2), w: self.row_spec(3) }
    }

    pub open spec fn add_spec(self, o: Self) -> Self {
        Matrix4 {
            x: add4(self.x, o.x),
            y: add4(self.y, o.y),
            z: add4(self.z, o.z),
            w: add4(self.w, o.w),
        }
    }

    pub open spec fn div_spec(self, t: F) -> Self {
        Matrix4 { x: div4(self.x, t), y: div4(self.y, t), z: div4(self.z, t), w: div4(self.w, t) }
    }

    /// The image of the column `v`.
    pub open spec fn apply_spec(self, v: Vector4<F>) -> Vector4<F> {
        Vector4 {
            x: self.row_spec(0).dot_spec(v),
            y: self.row_spec(1).dot_spec(v),
            z: self.row_spec(2).dot_spec(v),
            w: self.row_spec(3).dot_spec(v),
        }
    }

    pub open spec fn mul_spec(self, o: Self) -> Self {
        Matrix4 {
            x: self.apply_spec(o.x),
            y: self.apply_spec(o.y),
            z: self.apply_spec(o.z),
            w: self.apply_spec(o.w),
        }
    }

    pub open spec fn trace_spec(self) -> F {
        self.x.x.add_spec(self.y.y).add_spec(self.z.z).add_spec(self.w.w)
    }

    /// The upper left 3×3 block.
    pub open spec fn truncate_spec(self) -> Matrix3<F> {
        Matrix3 {
            x: Vector3 { x: self.x.x, y: self.x.y, z: self.x.z },
            y: Vector3 { x: self.y.x, y: self.y.y, z: self.y.z },
            z: Vector3 { x: self.z.x, y: self.z.y, z: self.z.z },
        }
    }

    /// The determinant: each entry of the first row times its cofactor,
    /// each cofactor a signed sum of six triple products.
    pub open spec fn determinant_spec(self) -> F {
        let t0 = cofactor_term(self.y.y, self.z.z, self.w.w, self.z.y, self.w.z, self.y.w, self.w.y, self.y.z, self.z.w);
        let t1 = cofactor_term(self.w.y, self.z.z, self.x.w, self.z.y, self.x.z, self.w.w, self.x.y, self.w.z, self.z.w);
        let t2 = cofactor_term(self.x.y, self.y.z, self.w.w, self.y.y, self.w.z, self.x.w, self.w.y, self.x.z, self.y.w);
        let t3 = cofactor_term(self.z.y, self.y.z, self.x.w, self.y.y, self.x.z, self.z.w, self.x.y, self.z.z, self.y.w);
        Vector4 { x: t0, y: t1, z: t2, w: t3 }.dot_spec(self.row_spec(0))
    }

    pub fn identity() -> (r: Self)
        ensures
            r == Self::identity_spec(),
    {
        let o = F::zero();
        let l = F::one();
        Matrix4 {
            x: Vector4::new(l, o, o, o),
            y: Vector4::new(o, l, o, o),
            z: Vector4::new(o, o, l, o),
            w: Vector4::new(o, o, o, l),
        }
    }

    /// The matrix with the given entries, listed column by column.
    pub fn new(
        c0r0: F, c0r1: F, c0r2: F, c0r3: F,
        c1r0: F, c1r1: F, c1r2: F, c1r3: F,
        c2r0: F, c2r1: F, c2r2: F, c2r3: F,
        c3r0: F, c3r1: F, c3r2: F, c3r3: F,
    ) -> (r: Self)
        ensures
            r == (Matrix4 {
                x: Vector4 { x: c0r0, y: c0r1, z: c0r2, w: c0r3 },
                y: Vector4 { x: c1r0, y: c1r1, z: c1r2, w: c1r3 },
                z: Vector4 { x: c2r0, y: c2r1, z: c2r2, w: c2r3 },
                w: Vector4 { x: c3r0, y: c3r1, z: c3r2, w: c3r3 },
            }),
    {
        Matrix4 {
            x: Vector4::new(c0r0, c0r1, c0r2, c0r3),
            y: Vector4::new(c1r0, c1r1, c1r2, c1r3),
            z: Vector4::new(c2r0, c2r1, c2r2, c2r3),
            w: Vector4::new(c3r0, c3r1, c3r2, c3r3),
        }
    }

    pub fn row(self, r: usize) -> (v: Vector4<F>)
        ensures
            v == self.row_spec(r as int),
    {
        if r == 0 {
            Vector4::new(self.x.x, self.y.x, self.z.x, self.w.x)
        } else if r == 1 {
            Vector4::new(self.x.y, self.y.y, self.z.y, self.w.y)
        } else if r == 2 {
            Vector4::new(self.x.z, self.y.z, self.z.z, self.w.z)
        } else {
            Vector4::new(self.x.w, self.y.w, self.z.w, self.w.w)
        }
    }

    pub fn transpose(self) -> (r: Self)
        ensures
            r == self.transpose_spec(),
    {
        Matrix4 { x: self.row(0), y: self.row(1), z: self.row(2), w: self.row(3) }
    }

    pub fn add(self, o: Self) -> (r: Self)
        ensures
            r == self.add_spec(o),
    {
        Matrix4 {
            x: add4_exec(self.x, o.x),
            y: add4_exec(self.y, o.y),
            z: add4_exec(self.z, o.z),
            w: add4_exec(self.w, o.w),
        }
    }

    pub fn div(self, t: F) -> (r: Self)
        ensures
            r == self.div_spec(t),
    {
        Matrix4 {
            x: div4_exec(self.x, t),
            y: div4_exec(self.y, t),
            z: div4_exec(self.z, t),
            w: div4_exec(self.w, t),
        }
    }

    pub fn apply(self, v: Vector4<F>) -> (r: Vector4<F>)
        ensures
            r == self.apply_spec(v),
    {
        Vector4::new(self.row(0).dot(v), self.row(1).dot(v), self.row(2).dot(v), self.row(3).dot(v))
    }

    pub fn mul(self, o: Self) -> (r: Self)
        ensures
            r == self.mul_spec(o),
    {
        Matrix4 { x: self.apply(o.x), y: self.apply(o.y), z: self.apply(o.z), w: self.apply(o.w) }
    }

    pub fn trace(self) -> (r: F)
        ensures
            r == self.trace_spec(),
    {
        self.x.x.add(self.y.y).add(self.z.z).add(self.w.w)
    }

    pub fn truncate(self) -> (r: Matrix3<F>)
        ensures
            r == self.truncate_spec(),
    {
        Matrix3 {
            x: Vector3::new(self.x.x, self.x.y, self.x.z),
            y: Vector3::new(self.y.x, self.y.y, self.y.z),
            z: Vector3::new(self.z.x, self.z.y, self.z.z),
        }
    }

    pub fn determinant(self) -> (r: F)
        ensures
            r == self.determinant_spec(),
    {
        let t0 = cofactor_term_exec(self.y.y, self.z.z, self.w.w, self.z.y, self.w.z, self.y.w, self.w.y, self.y.z, self.z.w);
        let t1 = cofactor_term_exec(self.w.y, self.z.z, self.x.w, self.z.y, self.x.z, self.w.w, self.x.y, self.w.z, self.z.w);
        let t2 = cofactor_term_exec(self.x.y, self.y.z, self.w.w, self.y.y, self.w.z, self.x.w, self.w.y, self.x.z, self.y.w);
        let t3 = cofactor_term_exec(self.z.y, self.y.z, self.x.w, self.y.y, self.x.z, self.z.w, self.x.y, self.z.z, self.y.w);
        Vector4::new(t0, t1, t2, t3).dot(self.row(0))
    }
}

/// `a(bc) + d(ef) + g(hi) - a(ei) - d(hc) - g(bf)`: a 3×3 determinant as
/// the 4×4 determinant expands it.
pub open spec fn cofactor_term<F: Scalar>(a: F, b: F, c: F, d: F, e: F, f: F, g: F, h: F, i: F) -> F {
    a.mul_spec(b.mul_spec(c)).add_spec(d.mul_spec(e.mul_spec(f))).add_spec(g.mul_spec(h.mul_spec(i))).sub_spec(
        a.mul_spec(e.mul_spec(i)),
    ).sub_spec(d.mul_spec(h.mul_spec(c))).sub_spec(g.mul_spec(b.mul_spec(f)))
}

fn cofactor_term_exec<F: Scalar>(a: F, b: F, c: F, d: F, e: F, f: F, g: F, h: F, i: F) -> (r: F)
    ensures
        r == cofactor_term(a, b, c, d, e, f, g, h, i),
{
    a.mul(b.mul(c)).add(d.mul(e.mul(f))).add(g.mul(h.mul(i))).sub(a.mul(e.mul(i))).sub(
        d.mul(h.mul(c)),
    ).sub(g.mul(b.mul(f)))
}

pub open spec fn add4<F: Scalar>(a: Vector4<F>, b: Vector4<F>) -> Vector4<F> {
    Vector4 { x: a.x.add_spec(b.x), y: a.y.add_spec(b.y), z: a.z.add_spec(b.z), w: a.w.add_spec(b.w) }
}

pub open spec fn div4<F: Scalar>(a: Vector4<F>, t: F) -> Vector4<F> {
    Vector4 { x: a.x.div_spec(t), y: a.y.div_spec(t), z: a.z.div_spec(t), w: a.w.div_spec(t) }
}

fn add4_exec<F: Scalar>(a: Vector4<F>, b: Vector4<F>) -> (r: Vector4<F>)
    ensures
        r == add4(a, b),
{
    Vector4::new(a.x.add(b.x), a.y.add(b.y), a.z.add(b.z), a.w.add(b.w))
}

fn div4_exec<F: Scalar>(a: Vector4<F>, t: F) -> (r: Vector4<F>)
    ensures
        r == div4(a, t),
{
    Vector4::new(a.x.div(t), a.y.div(t), a.z.div(t), a.w.div(t))
}

} // verus!
