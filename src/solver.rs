//! Closed-form roots of monic quadratic, cubic and quartic equations, each
//! cubic and quartic root polished by Newton's method.

use crate::complex::Complex;
use crate::scalar::{
    four, four_exec, sqrt_epsilon, sqrt_epsilon_exec, three, three_exec, two, two_exec, Scalar,
};
use vstd::prelude::*;

verus! {

/// The most Newton steps taken to polish one root.
pub const NEWTON_STEPS: u32 = 100;

/// The two roots of `x² + ax + b = 0`: the real ones in ascending order when
/// the discriminant `a² - 4b` is not negative, else the conjugate pair with
/// the positive imaginary part first.
pub open spec fn quadratic_roots<F: Scalar>(a: F, b: F) -> (Complex<F>, Complex<F>) {
    let d = a.mul_spec(a).sub_spec(four::<F>().mul_spec(b));
    if F::zero_spec().le_spec(d) {
        let h = d.sqrt_spec();
        (
            Complex::real_spec(a.neg_spec().sub_spec(h).div_spec(two())),
            Complex::real_spec(a.neg_spec().add_spec(h).div_spec(two())),
        )
    } else {
        let h = d.neg_spec().sqrt_spec();
        (
            Complex { re: a.neg_spec(), im: h }.div_real_spec(two()),
            Complex { re: a.neg_spec(), im: h.neg_spec() }.div_real_spec(two()),
        )
    }
}

/// A depressed polynomial: `x³ + px + q` or `x⁴ + px² + qx + r`.
#[derive(Clone, Copy, Debug)]
pub enum Depressed<F> {
    Cubic { p: F, q: F },
    Quartic { p: F, q: F, r: F },
}

impl<F: Scalar> Depressed<F> {
    /// The polynomial's value at `x`.
    pub open spec fn value_spec(self, x: Complex<F>) -> Complex<F> {
        match self {
            Depressed::Cubic { p, q } => x.mul_spec(x).mul_spec(x).add_spec(
                x.mul_real_spec(p),
            ).add_real_spec(q),
            Depressed::Quartic { p, q, r } => x.mul_spec(x).mul_spec(x).mul_spec(x).add_spec(
                x.mul_spec(x).mul_real_spec(p),
            ).add_spec(x.mul_real_spec(q)).add_real_spec(r),
        }
    }

    /// The derivative's value at `x`.
    pub open spec fn slope_spec(self, x: Complex<F>) -> Complex<F> {
        match self {
            Depressed::Cubic { p, q } => x.mul_spec(x).mul_real_spec(three()).add_real_spec(p),
            Depressed::Quartic { p, q, r } => x.mul_spec(x).mul_spec(x).mul_real_spec(
                four(),
            ).add_spec(x.mul_real_spec(p).mul_real_spec(two())).add_real_spec(q),
        }
    }

    pub fn value(self, x: Complex<F>) -> (v: Complex<F>)
        ensures
            v == self.value_spec(x),
    {
        match self {
            Depressed::Cubic { p, q } => x.mul(x).mul(x).add(x.mul_real(p)).add_real(q),
            Depressed::Quartic { p, q, r } => x.mul(x).mul(x).mul(x).add(x.mul(x).mul_real(p)).add(
                x.mul_real(q),
            ).add_real(r),
        }
    }

    pub fn slope(self, x: Complex<F>) -> (v: Complex<F>)
        ensures
            v == self.slope_spec(x),
    {
        match self {
            Depressed::Cubic { p, q } => x.mul(x).mul_real(three_exec()).add_real(p),
            Depressed::Quartic { p, q, r } => x.mul(x).mul(x).mul_real(four_exec()).add(
                x.mul_real(p).mul_real(two_exec()),
            ).add_real(q),
        }
    }
}

/// Newton's method on `poly` from `x`, for at most `steps` steps. It stops
/// once `|f(x)| <= √ε·|f'(x)|`, and gives up, keeping `x`, where
/// `|f'(x)| < √ε`.
pub open spec fn newton<F: Scalar>(poly: Depressed<F>, x: Complex<F>, steps: nat) -> Complex<F>
    decreases steps,
{
    let f = poly.value_spec(x);
    let fp = poly.slope_spec(x);
    if steps == 0 || !sqrt_epsilon::<F>().mul_spec(fp.norm_spec()).lt_spec(f.norm_spec()) {
        x
    } else if fp.norm_spec().lt_spec(sqrt_epsilon()) {
        x
    } else {
        newton(poly, x.sub_spec(f.div_spec(fp)), (steps - 1) as nat)
    }
}

/// A root `x` of `poly` after polishing.
pub open spec fn polished<F: Scalar>(poly: Depressed<F>, x: Complex<F>) -> Complex<F> {
    newton(poly, x, NEWTON_STEPS as nat)
}

/// Polishes the approximate root `x0` of `poly` by Newton's method.
pub fn refine<F: Scalar>(poly: Depressed<F>, x0: Complex<F>) -> (x: Complex<F>)
    ensures
        x == polished(poly, x0),
{
    let tol = sqrt_epsilon_exec::<F>();
    let mut x = x0;
    let mut left: u32 = NEWTON_STEPS;
    loop
        invariant
            tol == sqrt_epsilon::<F>(),
            newton(poly, x, left as nat) == polished(poly, x0),
        decreases left,
    {
        let f = poly.value(x);
        let fp = poly.slope(x);
        if left == 0 || !tol.mul(fp.norm()).lt(f.norm()) {
            return x;
        }
        if fp.norm().lt(tol) {
            return x;
        }
        x = x.sub(f.div(fp));
        left = left - 1;
    }
}

/// Cardano's pair of cube roots `(u, v)` for `x³ + px + q = 0`, whose
/// combinations with the cube roots of unity give the three roots.
pub open spec fn cardano_pair<F: Scalar>(p: F, q: F) -> (Complex<F>, Complex<F>) {
    let p_3 = p.div_spec(three());
    let q_2 = q.div_spec(two());
    let alpha2 = q_2.mul_spec(q_2).add_spec(p_3.mul_spec(p_3).mul_spec(p_3));
    let third = F::one_spec().div_spec(three());
    if F::zero_spec().le_spec(alpha2) {
        let alpha = alpha2.sqrt_spec();
        let tx = q_2.neg_spec().sub_spec(alpha);
        let ty = q_2.neg_spec().add_spec(alpha);
        (
            Complex::real_spec(tx.signum_spec().mul_spec(tx.abs_spec().powf_spec(third))),
            Complex::real_spec(ty.signum_spec().mul_spec(ty.abs_spec().powf_spec(third))),
        )
    } else {
        let ai = alpha2.neg_spec().sqrt_spec();
        (
            Complex { re: q_2.neg_spec(), im: ai }.powf_spec(third),
            Complex { re: q_2.neg_spec(), im: ai.neg_spec() }.powf_spec(third),
        )
    }
}

/// The primitive cube root of unity `ω = -1/2 + i√3/2`.
pub open spec fn omega<F: Scalar>() -> Complex<F> {
    Complex { re: F::one_spec().neg_spec().div_spec(two()), im: three::<F>().sqrt_spec().div_spec(two()) }
}

/// `ω² = -1/2 - i√3/2`.
pub open spec fn omega2<F: Scalar>() -> Complex<F> {
    Complex {
        re: F::one_spec().neg_spec().div_spec(two()),
        im: three::<F>().sqrt_spec().div_spec(two()).neg_spec(),
    }
}

/// The three roots of `x³ + px + q = 0`: `u + v`, `ωu + ω²v` and `ω²u + ωv`
/// for Cardano's pair `(u, v)`, each polished by Newton's method.
pub open spec fn depressed_cubic_roots<F: Scalar>(p: F, q: F) -> (
    Complex<F>,
    Complex<F>,
    Complex<F>,
) {
    let (x, y) = cardano_pair(p, q);
    let poly = Depressed::Cubic { p, q };
    (
        polished(poly, x.add_spec(y)),
        polished(poly, omega::<F>().mul_spec(x).add_spec(omega2::<F>().mul_spec(y))),
        polished(poly, omega2::<F>().mul_spec(x).add_spec(omega::<F>().mul_spec(y))),
    )
}

/// The three roots of `x³ + ax² + bx + c = 0`: those of the depressed cubic
/// in `t = x + a/3`, shifted back by `a/3`.
pub open spec fn cubic_roots<F: Scalar>(a: F, b: F, c: F) -> (Complex<F>, Complex<F>, Complex<F>) {
    let twenty_seven = three::<F>().mul_spec(three()).mul_spec(three());
    let p = b.sub_spec(a.mul_spec(a).div_spec(three()));
    let q = c.sub_spec(a.mul_spec(b).div_spec(three())).add_spec(
        two::<F>().mul_spec(a).mul_spec(a).mul_spec(a).div_spec(twenty_seven),
    );
    let shift = a.div_spec(three());
    let (x0, x1, x2) = depressed_cubic_roots(p, q);
    (x0.sub_real_spec(shift), x1.sub_real_spec(shift), x2.sub_real_spec(shift))
}

/// `1` or `-1`, the latter where `negative`.
pub open spec fn sign<F: Scalar>(negative: bool) -> F {
    if negative {
        F::one_spec().neg_spec()
    } else {
        F::one_spec()
    }
}

/// Candidate `i` (of `0..8`) of Ferrari's method: the root set
/// `(-a-b-c, -a+b+c, a-b+c, a+b-c)` for the signs of `a`, `b` and `c` that
/// the bits of `i` pick.
pub open spec fn quartic_candidate<F: Scalar>(sa: Complex<F>, sb: Complex<F>, sc: Complex<F>, i: nat) -> (
    Complex<F>,
    Complex<F>,
    Complex<F>,
    Complex<F>,
) {
    let a = sa.mul_real_spec(sign(i % 2 == 1));
    let b = sb.mul_real_spec(sign((i / 2) % 2 == 1));
    let c = sc.mul_real_spec(sign((i / 4) % 2 == 1));
    (
        a.neg_spec().sub_spec(b).sub_spec(c),
        a.neg_spec().add_spec(b).add_spec(c),
        a.sub_spec(b).add_spec(c),
        a.add_spec(b).sub_spec(c),
    )
}

/// The squared modulus of `poly` at `t`.
pub open spec fn residual<F: Scalar>(poly: Depressed<F>, t: Complex<F>) -> F {
    poly.value_spec(t).norm_sqr_spec()
}

/// The largest residual of the four candidate roots; of equal ones, the
/// later.
pub open spec fn worst_residual<F: Scalar>(
    poly: Depressed<F>,
    t: (Complex<F>, Complex<F>, Complex<F>, Complex<F>),
) -> F {
    let m0 = residual(poly, t.0);
    let r1 = residual(poly, t.1);
    let m1 = if r1.lt_spec(m0) { m0 } else { r1 };
    let r2 = residual(poly, t.2);
    let m2 = if r2.lt_spec(m1) { m1 } else { r2 };
    let r3 = residual(poly, t.3);
    if r3.lt_spec(m2) { m2 } else { r3 }
}

/// Of the first `n` candidates, the one whose worst residual is smallest,
/// with that residual; of equal ones, the first.
pub open spec fn best_candidate<F: Scalar>(
    poly: Depressed<F>,
    sa: Complex<F>,
    sb: Complex<F>,
    sc: Complex<F>,
    n: nat,
) -> ((Complex<F>, Complex<F>, Complex<F>, Complex<F>), F)
    decreases n,
{
    if n <= 1 {
        let c = quartic_candidate(sa, sb, sc, 0);
        (c, worst_residual(poly, c))
    } else {
        let prev = best_candidate(poly, sa, sb, sc, (n - 1) as nat);
        let c = quartic_candidate(sa, sb, sc, (n - 1) as nat);
        let w = worst_residual(poly, c);
        if w.lt_spec(prev.1) {
            (c, w)
        } else {
            prev
        }
    }
}

/// The four roots of `x⁴ + px² + qx + r = 0` by Ferrari's method: with
/// `f0, f1, f2` the roots of the resolvent cubic
/// `y³ + 2py² + (p² - 4r)y - q² = 0`, and `a, b, c` their square roots
/// halved, the best of the eight sign choices, each root then polished by
/// Newton's method.
pub open spec fn depressed_quartic_roots<F: Scalar>(p: F, q: F, r: F) -> (
    Complex<F>,
    Complex<F>,
    Complex<F>,
    Complex<F>,
) {
    let (f0, f1, f2) = cubic_roots(
        two::<F>().mul_spec(p),
        p.mul_spec(p).sub_spec(four::<F>().mul_spec(r)),
        q.neg_spec().mul_spec(q),
    );
    let poly = Depressed::Quartic { p, q, r };
    let best = best_candidate(
        poly,
        f0.sqrt_spec().div_real_spec(two()),
        f1.sqrt_spec().div_real_spec(two()),
        f2.sqrt_spec().div_real_spec(two()),
        8,
    ).0;
    (polished(poly, best.0), polished(poly, best.1), polished(poly, best.2), polished(poly, best.3))
}

/// The four roots of `x⁴ + ax³ + bx² + cx + d = 0`: those of the depressed
/// quartic in `t = x + a/4`, shifted back by `a/4`.
pub open spec fn quartic_roots<F: Scalar>(a: F, b: F, c: F, d: F) -> (
    Complex<F>,
    Complex<F>,
    Complex<F>,
    Complex<F>,
) {
    let one = F::one_spec();
    let three = one.add_spec(two());
    let six = two::<F>().mul_spec(three);
    let eight = four::<F>().add_spec(four());
    let a_4 = a.div_spec(four());
    let p = b.sub_spec(six.mul_spec(a_4).mul_spec(a_4));
    let q = c.sub_spec(two::<F>().mul_spec(b).mul_spec(a_4)).add_spec(
        eight.mul_spec(a_4).mul_spec(a_4).mul_spec(a_4),
    );
    let r = d.sub_spec(c.mul_spec(a_4)).add_spec(b.mul_spec(a_4).mul_spec(a_4)).sub_spec(
        three.mul_spec(a_4).mul_spec(a_4).mul_spec(a_4).mul_spec(a_4),
    );
    let (x0, x1, x2, x3) = depressed_quartic_roots(p, q, r);
    (x0.sub_real_spec(a_4), x1.sub_real_spec(a_4), x2.sub_real_spec(a_4), x3.sub_real_spec(a_4))
}

/// Solves `x² + ax + b = 0`.
pub fn solve_quadratic<F: Scalar>(a: F, b: F) -> (res: [Complex<F>; 2])
    ensures
        (res[0], res[1]) == quadratic_roots(a, b),
{
    let two = two_exec::<F>();
    let four = four_exec::<F>();
    let det = a.mul(a).sub(four.mul(b));
    if F::zero().le(det) {
        let h = det.sqrt();
        [
            Complex::from_real(a.neg().sub(h).div(two)),
            Complex::from_real(a.neg().add(h).div(two)),
        ]
    } else {
        let h = det.neg().sqrt();
        [Complex::new(a.neg(), h).div_real(two), Complex::new(a.neg(), h.neg()).div_real(two)]
    }
}

/// Solves `x³ + px + q = 0`.
pub fn pre_solve_cubic<F: Scalar>(p: F, q: F) -> (res: [Complex<F>; 3])
    ensures
        (res[0], res[1], res[2]) == depressed_cubic_roots(p, q),
{
    let one = F::one();
    let two = two_exec::<F>();
    let three = three_exec::<F>();
    let sqrt3_2 = three.sqrt().div(two);
    let omega = Complex::new(one.neg().div(two), sqrt3_2);
    let omega2 = Complex::new(one.neg().div(two), sqrt3_2.neg());
    let p_3 = p.div(three);
    let q_2 = q.div(two);
    let alpha2 = q_2.mul(q_2).add(p_3.mul(p_3).mul(p_3));
    let third = one.div(three);
    let (x, y) = if F::zero().le(alpha2) {
        let alpha = alpha2.sqrt();
        let tx = q_2.neg().sub(alpha);
        let ty = q_2.neg().add(alpha);
        (
            Complex::from_real(tx.signum().mul(tx.abs().powf(third))),
            Complex::from_real(ty.signum().mul(ty.abs().powf(third))),
        )
    } else {
        let ai = alpha2.neg().sqrt();
        (Complex::new(q_2.neg(), ai).powf(third), Complex::new(q_2.neg(), ai.neg()).powf(third))
    };
    let poly = Depressed::Cubic { p, q };
    [
        refine(poly, x.add(y)),
        refine(poly, omega.mul(x).add(omega2.mul(y))),
        refine(poly, omega2.mul(x).add(omega.mul(y))),
    ]
}

/// Solves `x³ + ax² + bx + c = 0`.
pub fn solve_cubic<F: Scalar>(a: F, b: F, c: F) -> (res: [Complex<F>; 3])
    ensures
        (res[0], res[1], res[2]) == cubic_roots(a, b, c),
{
    let two = two_exec::<F>();
    let three = three_exec::<F>();
    let twenty_seven = three.mul(three).mul(three);
    let p = b.sub(a.mul(a).div(three));
    let q = c.sub(a.mul(b).div(three)).add(two.mul(a).mul(a).mul(a).div(twenty_seven));
    let roots = pre_solve_cubic(p, q);
    let shift = a.div(three);
    [roots[0].sub_real(shift), roots[1].sub_real(shift), roots[2].sub_real(shift)]
}

fn sign_exec<F: Scalar>(negative: bool) -> (s: F)
    ensures
        s == sign::<F>(negative),
{
    if negative {
        F::one().neg()
    } else {
        F::one()
    }
}

fn quartic_candidate_exec<F: Scalar>(sa: Complex<F>, sb: Complex<F>, sc: Complex<F>, i: u32) -> (t: (
    Complex<F>,
    Complex<F>,
    Complex<F>,
    Complex<F>,
))
    ensures
        t == quartic_candidate(sa, sb, sc, i as nat),
{
    let a = sa.mul_real(sign_exec(i % 2 == 1));
    let b = sb.mul_real(sign_exec((i / 2) % 2 == 1));
    let c = sc.mul_real(sign_exec((i / 4) % 2 == 1));
    (a.neg().sub(b).sub(c), a.neg().add(b).add(c), a.sub(b).add(c), a.add(b).sub(c))
}

fn worst_residual_exec<F: Scalar>(
    poly: Depressed<F>,
    t: (Complex<F>, Complex<F>, Complex<F>, Complex<F>),
) -> (m: F)
    ensures
        m == worst_residual(poly, t),
{
    let m0 = poly.value(t.0).norm_sqr();
    let r1 = poly.value(t.1).norm_sqr();
    let m1 = if r1.lt(m0) { m0 } else { r1 };
    let r2 = poly.value(t.2).norm_sqr();
    let m2 = if r2.lt(m1) { m1 } else { r2 };
    let r3 = poly.value(t.3).norm_sqr();
    if r3.lt(m2) { m2 } else { r3 }
}

/// Solves `x⁴ + px² + qx + r = 0`.
pub fn pre_solve_quartic<F: Scalar>(p: F, q: F, r: F) -> (res: [Complex<F>; 4])
    ensures
        (res[0], res[1], res[2], res[3]) == depressed_quartic_roots(p, q, r),
{
    let two = two_exec::<F>();
    let four = four_exec::<F>();
    let f = solve_cubic(two.mul(p), p.mul(p).sub(four.mul(r)), q.neg().mul(q));
    let sa = f[0].sqrt().div_real(two);
    let sb = f[1].sqrt().div_real(two);
    let sc = f[2].sqrt().div_real(two);
    let poly = Depressed::Quartic { p, q, r };
    let mut best = quartic_candidate_exec(sa, sb, sc, 0);
    let mut best_w = worst_residual_exec(poly, best);
    let mut i: u32 = 1;
    while i < 8
        invariant
            1 <= i <= 8,
            (best, best_w) == best_candidate(poly, sa, sb, sc, i as nat),
        decreases 8 - i,
    {
        let c = quartic_candidate_exec(sa, sb, sc, i);
        let w = worst_residual_exec(poly, c);
        if w.lt(best_w) {
            best = c;
            best_w = w;
        }
        i = i + 1;
    }
    [refine(poly, best.0), refine(poly, best.1), refine(poly, best.2), refine(poly, best.3)]
}

/// Solves `x⁴ + ax³ + bx² + cx + d = 0`.
pub fn solve_quartic<F: Scalar>(a: F, b: F, c: F, d: F) -> (res: [Complex<F>; 4])
    ensures
        (res[0], res[1], res[2], res[3]) == quartic_roots(a, b, c, d),
{
    let one = F::one();
    let two = two_exec::<F>();
    let three = one.add(two);
    let four = four_exec::<F>();
    let six = two.mul(three);
    let eight = four.add(four);
    let a_4 = a.div(four);
    let p = b.sub(six.mul(a_4).mul(a_4));
    let q = c.sub(two.mul(b).mul(a_4)).add(eight.mul(a_4).mul(a_4).mul(a_4));
    let r = d.sub(c.mul(a_4)).add(b.mul(a_4).mul(a_4)).sub(
        three.mul(a_4).mul(a_4).mul(a_4).mul(a_4),
    );
    let roots = pre_solve_quartic(p, q, r);
    [
        roots[0].sub_real(a_4),
        roots[1].sub_real(a_4),
        roots[2].sub_real(a_4),
        roots[3].sub_real(a_4),
    ]
}

} // verus!
