//! Column vectors of two, three and four components.

use crate::scalar::Scalar;
use vstd::prelude::*;

verus! {

#[derive(Clone, Copy, Debug)]
pub struct Vector2<F> {
    pub x: F,
    pub y: F,
}

#[derive(Clone, Copy, Debug)]
pub struct Vector3<F> {
    pub x: F,
    pub y: F,
    pub z: F,
}

#[derive(Clone, Copy, Debug)]
pub struct Vector4<F> {
    pub x: F,
    pub y: F,
    pub z: F,
    pub w: F,
}

impl<F: Scalar> Vector2<F> {
    pub open spec fn add_spec(self, o: Self) -> Self {
        Vector2 { x: self.x.add_spec(o.x), y: self.y.add_spec(o.y) }
    }

    pub open spec fn sub_spec(self, o: Self) -> Self {
        Vector2 { x: self.x.sub_spec(o.x), y: self.y.sub_spec(o.y) }
    }

    pub open spec fn scale_spec(self, t: F) -> Self {
        Vector2 { x: self.x.mul_spec(t), y: self.y.mul_spec(t) }
    }

    pub open spec fn div_spec(self, t: F) -> Self {
        Vector2 { x: self.x.div_spec(t), y: self.y.div_spec(t) }
    }

    pub open spec fn dot_spec(self, o: Self) -> F {
        self.x.mul_spec(o.x).add_spec(self.y.mul_spec(o.y))
    }

    /// The squared Euclidean length.
    pub open spec fn magnitude2_spec(self) -> F {
        self.dot_spec(self)
    }

    /// `self` scaled to unit length.
    pub open spec fn normalize_spec(self) -> Self {
        self.scale_spec(F::one_spec().div_spec(self.magnitude2_spec().sqrt_spec()))
    }

    pub fn new(x: F, y: F) -> (r: Self)
        ensures
            r == (Vector2 { x, y }),
    {
        Vector2 { x, y }
    }

    pub fn add(self, o: Self) -> (r: Self)
        ensures
            r == self.add_spec(o),
    {
        Vector2 { x: self.x.add(o.x), y: self.y.add(o.y) }
    }

    pub fn sub(self, o: Self) -> (r: Self)
        ensures
            r == self.sub_spec(o),
    {
        Vector2 { x: self.x.sub(o.x), y: self.y.sub(o.y) }
    }

    pub fn scale(self, t: F) -> (r: Self)
        ensures
            r == self.scale_spec(t),
    {
        Vector2 { x: self.x.mul(t), y: self.y.mul(t) }
    }

    pub fn div(self, t: F) -> (r: Self)
        ensures
            r == self.div_spec(t),
    {
        Vector2 { x: self.x.div(t), y: self.y.div(t) }
    }

    pub fn dot(self, o: Self) -> (r: F)
        ensures
            r == self.dot_spec(o),
    {
        self.x.mul(o.x).add(self.y.mul(o.y))
    }

    pub fn magnitude2(self) -> (r: F)
        ensures
            r == self.magnitude2_spec(),
    {
        self.dot(self)
    }

    pub fn normalize(self) -> (r: Self)
        ensures
            r == self.normalize_spec(),
    {
        self.scale(F::one().div(self.magnitude2().sqrt()))
    }
}

impl<F: Scalar> Vector3<F> {
    pub open spec fn add_spec(self, o: Self) -> Self {
        Vector3 { x: self.x.add_spec(o.x), y: self.y.add_spec(o.y), z: self.z.add_spec(o.z) }
    }

    pub open spec fn sub_spec(self, o: Self) -> Self {
        Vector3 { x: self.x.sub_spec(o.x), y: self.y.sub_spec(o.y), z: self.z.sub_spec(o.z) }
    }

    pub open spec fn scale_spec(self, t: F) -> Self {
        Vector3 { x: self.x.mul_spec(t), y: self.y.mul_spec(t), z: self.z.mul_spec(t) }
    }

    pub open spec fn div_spec(self, t: F) -> Self {
        Vector3 { x: self.x.div_spec(t), y: self.y.div_spec(t), z: self.z.div_spec(t) }
    }

    pub open spec fn dot_spec(self, o: Self) -> F {
        self.x.mul_spec(o.x).add_spec(self.y.mul_spec(o.y)).add_spec(self.z.mul_spec(o.z))
    }

    /// The squared Euclidean length.
    pub open spec fn magnitude2_spec(self) -> F {
        self.dot_spec(self)
    }

    /// `self` scaled to unit length.
    pub open spec fn normalize_spec(self) -> Self {
        self.scale_spec(F::one_spec().div_spec(self.magnitude2_spec().sqrt_spec()))
    }

    pub open spec fn cross_spec(self, o: Self) -> Self {
        Vector3 {
            x: self.y.mul_spec(o.z).sub_spec(self.z.mul_spec(o.y)),
            y: self.z.mul_spec(o.x).sub_spec(self.x.mul_spec(o.z)),
            z: self.x.mul_spec(o.y).sub_spec(self.y.mul_spec(o.x)),
        }
    }

    pub fn new(x: F, y: F, z: F) -> (r: Self)
        ensures
            r == (Vector3 { x, y, z }),
    {
        Vector3 { x, y, z }
    }

    pub fn add(self, o: Self) -> (r: Self)
        ensures
            r == self.add_spec(o),
    {
        Vector3 { x: self.x.add(o.x), y: self.y.add(o.y), z: self.z.add(o.z) }
    }

    pub fn sub(self, o: Self) -> (r: Self)
        ensures
            r == self.sub_spec(o),
    {
        Vector3 { x: self.x.sub(o.x), y: self.y.sub(o.y), z: self.z.sub(o.z) }
    }

    pub fn scale(self, t: F) -> (r: Self)
        ensures
            r == self.scale_spec(t),
    {
        Vector3 { x: self.x.mul(t), y: self.y.mul(t), z: self.z.mul(t) }
    }

    pub fn div(self, t: F) -> (r: Self)
        ensures
            r == self.div_spec(t),
    {
        Vector3 { x: self.x.div(t), y: self.y.div(t), z: self.z.div(t) }
    }

    pub fn dot(self, o: Self) -> (r: F)
        ensures
            r == self.dot_spec(o),
    {
        self.x.mul(o.x).add(self.y.mul(o.y)).add(self.z.mul(o.z))
    }

    pub fn magnitude2(self) -> (r: F)
        ensures
            r == self.magnitude2_spec(),
    {
        self.dot(self)
    }

    pub fn normalize(self) -> (r: Self)
        ensures
            r == self.normalize_spec(),
    {
        self.scale(F::one().div(self.magnitude2().sqrt()))
    }

    pub fn cross(self, o: Self) -> (r: Self)
        ensures
            r == self.cross_spec(o),
    {
        Vector3 {
            x: self.y.mul(o.z).sub(self.z.mul(o.y)),
            y: self.z.mul(o.x).sub(self.x.mul(o.z)),
            z: self.x.mul(o.y).sub(self.y.mul(o.x)),
        }
    }
}

impl<F: Scalar> Vector4<F> {
    pub open spec fn dot_spec(self, o: Self) -> F {
        self.x.mul_spec(o.x).add_spec(self.y.mul_spec(o.y)).add_spec(self.z.mul_spec(o.z)).add_spec(
            self.w.mul_spec(o.w),
        )
    }

    pub fn new(x: F, y: F, z: F, w: F) -> (r: Self)
        ensures
            r == (Vector4 { x, y, z, w }),
    {
        Vector4 { x, y, z, w }
    }

    pub fn dot(self, o: Self) -> (r: F)
        ensures
            r == self.dot_spec(o),
    {
        self.x.mul(o.x).add(self.y.mul(o.y)).add(self.z.mul(o.z)).add(self.w.mul(o.w))
    }
}

} // verus!
