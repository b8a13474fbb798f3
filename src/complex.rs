//! Complex numbers over a [`Scalar`], with the arithmetic the solvers need.

use crate::scalar::Scalar;
use vstd::prelude::*;

verus! {

/// The complex number `re + i im`.
#[derive(Clone, Copy, Debug)]
pub struct Complex<F> {
    pub re: F,
    pub im: F,
}

impl<F: Scalar> Complex<F> {
    pub open spec fn real_spec(x: F) -> Self {
        Complex { re: x, im: F::zero_spec() }
    }

    pub open spec fn add_spec(self, o: Self) -> Self {
        Complex { re: self.re.add_spec(o.re), im: self.im.add_spec(o.im) }
    }

    pub open spec fn sub_spec(self, o: Self) -> Self {
        Complex { re: self.re.sub_spec(o.re), im: self.im.sub_spec(o.im) }
    }

    pub open spec fn mul_spec(self, o: Self) -> Self {
        Complex {
            re: self.re.mul_spec(o.re).sub_spec(self.im.mul_spec(o.im)),
            im: self.re.mul_spec(o.im).add_spec(self.im.mul_spec(o.re)),
        }
    }

    pub open spec fn norm_sqr_spec(self) -> F {
        self.re.mul_spec(self.re).add_spec(self.im.mul_spec(self.im))
    }

    pub open spec fn div_spec(self, o: Self) -> Self {
        let n = o.norm_sqr_spec();
        Complex {
            re: self.re.mul_spec(o.re).add_spec(self.im.mul_spec(o.im)).div_spec(n),
            im: self.im.mul_spec(o.re).sub_spec(self.re.mul_spec(o.im)).div_spec(n),
        }
    }

    pub open spec fn neg_spec(self) -> Self {
        Complex { re: self.re.neg_spec(), im: self.im.neg_spec() }
    }

    pub open spec fn add_real_spec(self, t: F) -> Self {
        Complex { re: self.re.add_spec(t), im: self.im }
    }

    pub open spec fn sub_real_spec(self, t: F) -> Self {
        Complex { re: self.re.sub_spec(t), im: self.im }
    }

    pub open spec fn mul_real_spec(self, t: F) -> Self {
        Complex { re: self.re.mul_spec(t), im: self.im.mul_spec(t) }
    }

    pub open spec fn div_real_spec(self, t: F) -> Self {
        Complex { re: self.re.div_spec(t), im: self.im.div_spec(t) }
    }

    /// The modulus `|self|`.
    pub open spec fn norm_spec(self) -> F {
        self.re.hypot_spec(self.im)
    }

    pub open spec fn sqrt_spec(self) -> Self {
        let (re, im) = F::complex_sqrt_spec(self.re, self.im);
        Complex { re, im }
    }

    pub open spec fn powf_spec(self, e: F) -> Self {
        let (re, im) = F::complex_powf_spec(self.re, self.im, e);
        Complex { re, im }
    }

    pub fn new(re: F, im: F) -> (r: Self)
        ensures
            r == (Complex { re, im }),
    {
        Complex { re, im }
    }

    pub fn from_real(x: F) -> (r: Self)
        ensures
            r == Self::real_spec(x),
    {
        Complex { re: x, im: F::zero() }
    }

    pub fn add(self, o: Self) -> (r: Self)
        ensures
            r == self.add_spec(o),
    {
        Complex { re: self.re.add(o.re), im: self.im.add(o.im) }
    }

    pub fn sub(self, o: Self) -> (r: Self)
        ensures
            r == self.sub_spec(o),
    {
        Complex { re: self.re.sub(o.re), im: self.im.sub(o.im) }
    }

    pub fn mul(self, o: Self) -> (r: Self)
        ensures
            r == self.mul_spec(o),
    {
        Complex {
            re: self.re.mul(o.re).sub(self.im.mul(o.im)),
            im: self.re.mul(o.im).add(self.im.mul(o.re)),
        }
    }

    pub fn norm_sqr(self) -> (r: F)
        ensures
            r == self.norm_sqr_spec(),
    {
        self.re.mul(self.re).add(self.im.mul(self.im))
    }

    pub fn div(self, o: Self) -> (r: Self)
        ensures
            r == self.div_spec(o),
    {
        let n = o.norm_sqr();
        Complex {
            re: self.re.mul(o.re).add(self.im.mul(o.im)).div(n),
            im: self.im.mul(o.re).sub(self.re.mul(o.im)).div(n),
        }
    }

    pub fn neg(self) -> (r: Self)
        ensures
            r == self.neg_spec(),
    {
        Complex { re: self.re.neg(), im: self.im.neg() }
    }

    pub fn add_real(self, t: F) -> (r: Self)
        ensures
            r == self.add_real_spec(t),
    {
        Complex { re: self.re.add(t), im: self.im }
    }

    pub fn sub_real(self, t: F) -> (r: Self)
        ensures
            r == self.sub_real_spec(t),
    {
        Complex { re: self.re.sub(t), im: self.im }
    }

    pub fn mul_real(self, t: F) -> (r: Self)
        ensures
            r == self.mul_real_spec(t),
    {
        Complex { re: self.re.mul(t), im: self.im.mul(t) }
    }

    pub fn div_real(self, t: F) -> (r: Self)
        ensures
            r == self.div_real_spec(t),
    {
        Complex { re: self.re.div(t), im: self.im.div(t) }
    }

    pub fn norm(self) -> (r: F)
        ensures
            r == self.norm_spec(),
    {
        self.re.hypot(self.im)
    }

    pub fn sqrt(self) -> (r: Self)
        ensures
            r == self.sqrt_spec(),
    {
        let (re, im) = F::complex_sqrt(self.re, self.im);
        Complex { re, im }
    }

    pub fn powf(self, e: F) -> (r: Self)
        ensures
            r == self.powf_spec(e),
    {
        let (re, im) = F::complex_powf(self.re, self.im, e);
        Complex { re, im }
    }
}

} // verus!
