use cgmath::{AbsDiffEq, InnerSpace, Matrix, Rad, SquareMatrix, UlpsEq};
use matext4cgmath::decomp::{degenerate2_solve3, get_normals, solve2, solve3, spectrum, Spectrum};
use matext4cgmath::matrix2::Matrix2;
use matext4cgmath::matrix3::Matrix3;
use matext4cgmath::matrix4::Matrix4;
use matext4cgmath::vector::Vector3;
use matext4cgmath::{solver, Complex, Scalar};
use num_complex::Complex as C64;
use std::f64::consts::PI;

/// `f64` as the library's scalar.
#[derive(Clone, Copy, Debug, PartialEq, PartialOrd)]
struct R(f64);

/// The model of each operation is the operation itself.
impl Scalar for R {
    fn zero_spec() -> Self {
        Self::zero()
    }
    fn one_spec() -> Self {
        Self::one()
    }
    fn epsilon_spec() -> Self {
        Self::epsilon()
    }
    fn from_u32_spec(n: u32) -> Self {
        Self::from_u32(n)
    }
    fn add_spec(self, o: Self) -> Self {
        self.add(o)
    }
    fn sub_spec(self, o: Self) -> Self {
        self.sub(o)
    }
    fn mul_spec(self, o: Self) -> Self {
        self.mul(o)
    }
    fn div_spec(self, o: Self) -> Self {
        self.div(o)
    }
    fn neg_spec(self) -> Self {
        self.neg()
    }
    fn abs_spec(self) -> Self {
        self.abs()
    }
    fn signum_spec(self) -> Self {
        self.signum()
    }
    fn sqrt_spec(self) -> Self {
        self.sqrt()
    }
    fn ln_spec(self) -> Self {
        self.ln()
    }
    fn powf_spec(self, e: Self) -> Self {
        self.powf(e)
    }
    fn hypot_spec(self, o: Self) -> Self {
        self.hypot(o)
    }
    fn max_spec(self, o: Self) -> Self {
        self.max(o)
    }
    fn equal_spec(self, o: Self) -> bool {
        self.equal(o)
    }
    fn ulps_eq_spec(self, o: Self) -> bool {
        Scalar::ulps_eq(self, o)
    }
    fn lt_spec(self, o: Self) -> bool {
        Scalar::lt(self, o)
    }
    fn le_spec(self, o: Self) -> bool {
        Scalar::le(self, o)
    }
    fn complex_sqrt_spec(re: Self, im: Self) -> (Self, Self) {
        Self::complex_sqrt(re, im)
    }
    fn complex_powf_spec(re: Self, im: Self, e: Self) -> (Self, Self) {
        Self::complex_powf(re, im, e)
    }
    fn zero() -> Self {
        R(0.0)
    }
    fn one() -> Self {
        R(1.0)
    }
    fn epsilon() -> Self {
        R(f64::EPSILON)
    }
    fn from_u32(n: u32) -> Self {
        R(n as f64)
    }
    fn add(self, o: Self) -> Self {
        R(self.0 + o.0)
    }
    fn sub(self, o: Self) -> Self {
        R(self.0 - o.0)
    }
    fn mul(self, o: Self) -> Self {
        R(self.0 * o.0)
    }
    fn div(self, o: Self) -> Self {
        R(self.0 / o.0)
    }
    fn neg(self) -> Self {
        R(-self.0)
    }
    fn abs(self) -> Self {
        R(self.0.abs())
    }
    fn signum(self) -> Self {
        R(self.0.signum())
    }
    fn sqrt(self) -> Self {
        R(self.0.sqrt())
    }
    fn ln(self) -> Self {
        R(self.0.ln())
    }
    fn powf(self, e: Self) -> Self {
        R(self.0.powf(e.0))
    }
    fn hypot(self, o: Self) -> Self {
        R(self.0.hypot(o.0))
    }
    fn max(self, o: Self) -> Self {
        R(self.0.max(o.0))
    }
    fn equal(self, o: Self) -> bool {
        self.0 == o.0
    }
    fn ulps_eq(self, o: Self) -> bool {
        self.0.ulps_eq(&o.0, f64::default_epsilon(), f64::default_max_ulps())
    }
    fn lt(self, o: Self) -> bool {
        self.0 < o.0
    }
    fn le(self, o: Self) -> bool {
        self.0 <= o.0
    }
    fn complex_sqrt(re: Self, im: Self) -> (Self, Self) {
        let z = C64::new(re.0, im.0).sqrt();
        (R(z.re), R(z.im))
    }
    fn complex_powf(re: Self, im: Self, e: Self) -> (Self, Self) {
        let z = C64::new(re.0, im.0).powf(e.0);
        (R(z.re), R(z.im))
    }
}

fn c(z: Complex<R>) -> C64<f64> {
    C64::new(z.re.0, z.im.0)
}

fn cs<const N: usize>(zs: [Complex<R>; N]) -> [C64<f64>; N] {
    zs.map(c)
}

fn rnd(scale: f64) -> f64 {
    scale * rand::random::<f64>() - scale / 2.0
}

fn from2(m: cgmath::Matrix2<f64>) -> Matrix2<R> {
    Matrix2::new(R(m.x.x), R(m.x.y), R(m.y.x), R(m.y.y))
}

fn into2(m: Matrix2<R>) -> cgmath::Matrix2<f64> {
    cgmath::Matrix2::new(m.x.x.0, m.x.y.0, m.y.x.0, m.y.y.0)
}

fn from3(m: cgmath::Matrix3<f64>) -> Matrix3<R> {
    Matrix3::new(
        R(m.x.x), R(m.x.y), R(m.x.z),
        R(m.y.x), R(m.y.y), R(m.y.z),
        R(m.z.x), R(m.z.y), R(m.z.z),
    )
}

fn into3(m: Matrix3<R>) -> cgmath::Matrix3<f64> {
    cgmath::Matrix3::new(
        m.x.x.0, m.x.y.0, m.x.z.0,
        m.y.x.0, m.y.y.0, m.y.z.0,
        m.z.x.0, m.z.y.0, m.z.z.0,
    )
}

fn random2() -> cgmath::Matrix2<f64> {
    cgmath::Matrix2::new(rnd(10.0), rnd(10.0), rnd(10.0), rnd(10.0))
}

fn random3() -> cgmath::Matrix3<f64> {
    cgmath::Matrix3::new(
        rnd(10.0), rnd(10.0), rnd(10.0),
        rnd(10.0), rnd(10.0), rnd(10.0),
        rnd(10.0), rnd(10.0), rnd(10.0),
    )
}

// ---- solvers ----

#[test]
fn solve_quadratic_test() {
    const EPS: f64 = 1.0e-10;
    let res = cs(solver::solve_quadratic(R(-2.0), R(1.0)));
    assert!(C64::norm(res[0] - 1.0) < EPS);
    assert!(C64::norm(res[1] - 1.0) < EPS);

    (0..10000).for_each(|_| {
        let a = rnd(100.0);
        let b = rnd(100.0);
        let vec = cs(solver::solve_quadratic(R(a), R(b)));
        vec.into_iter().for_each(|t| {
            let f = t * t + a * t + b;
            let g = f64::max((2.0 * t + a).norm(), 1.0);
            assert!(C64::norm(f) < EPS * g, "{a} {b} {t} {f}");
        });
    })
}

#[test]
fn pre_solve_cubic_test() {
    const EPS: f64 = 1.49e-8;
    (0..10000).for_each(|i| {
        let p = rnd(100.0);
        let q = rnd(100.0);
        let vec = cs(solver::pre_solve_cubic(R(p), R(q)));
        vec.into_iter().for_each(|t| {
            let f = t * t * t + p * t + q;
            let g = f64::max((3.0 * t * t + p).norm(), 1.0);
            assert!(C64::norm(f) < EPS * g, "{i} {p} {q} {vec:?} {t} {f}");
        });
    })
}

#[test]
fn solve_cubic_test() {
    const EPS: f64 = 1.49e-8;
    let mut res = cs(solver::solve_cubic(R(-1.5), R(-11.5), R(6.0)));
    res.sort_by(|x, y| x.re.partial_cmp(&y.re).unwrap());
    let ans = [C64::from(-3.0), C64::from(0.5), C64::from(4.0)];
    res.iter().zip(ans).for_each(|(x, y)| {
        assert!(C64::norm(x - y) < EPS);
    });

    let res = cs(solver::solve_cubic(R(-6.0), R(12.0), R(-8.0)));
    res.iter().for_each(|x| {
        assert!(C64::norm(x - 2.0) < EPS);
    });

    (0..10000).for_each(|_| {
        let a = rnd(100.0);
        let b = rnd(100.0);
        let c = rnd(100.0);
        let vec = cs(solver::solve_cubic(R(a), R(b), R(c)));
        vec.into_iter().for_each(|t| {
            let f = t * t * t + a * t * t + b * t + c;
            let g = f64::max((3.0 * t * t + 2.0 * a * t + b).norm(), 1.0);
            assert!(C64::norm(f) < EPS * g, "{a} {b} {c} {vec:?} {t} {f}");
        });
    });
}

#[test]
fn pre_solve_quartic_test() {
    const EPS: f64 = 1.49e-8;
    (0..10000).for_each(|i| {
        let p = rnd(100.0);
        let q = rnd(100.0);
        let r = rnd(100.0);
        let vec = cs(solver::pre_solve_quartic(R(p), R(q), R(r)));
        vec.into_iter().for_each(|t| {
            let f = t * t * t * t + p * t * t + q * t + r;
            let g = f64::max((4.0 * t * t * t + 2.0 * p * t + q).norm(), 1.0);
            assert!(C64::norm(f) < EPS * g, "{i} {p} {q} {r} {vec:?} {t} {f}");
        });
    });
}

#[test]
fn solve_quartic_test() {
    const EPS: f64 = 1.49e-8;
    (0..10000).for_each(|i| {
        let a = rnd(100.0);
        let b = rnd(100.0);
        let c = rnd(100.0);
        let d = rnd(100.0);
        let vec = cs(solver::solve_quartic(R(a), R(b), R(c), R(d)));
        vec.into_iter().for_each(|t| {
            let f = t * t * t * t + a * t * t * t + b * t * t + c * t + d;
            let g = f64::max((4.0 * t * t * t + 3.0 * a * t * t + 2.0 * b * t + c).norm(), 1.0);
            assert!(C64::norm(f) < EPS * g, "{i} {a} {b} {c} {d} {vec:?} {t} {f}");
        });
    });
}

#[test]
fn solver_worked_examples() {
    const EPS: f64 = 1.0e-10;
    let res = cs(solver::solve_quadratic(R(3.0), R(-4.0)));
    assert!(C64::norm(res[0] + 4.0) < EPS);
    assert!(C64::norm(res[1] - 1.0) < EPS);

    let mut res = cs(solver::pre_solve_cubic(R(-7.0), R(-6.0)));
    res.sort_by(|x, y| x.re.partial_cmp(&y.re).unwrap());
    for (x, y) in res.iter().zip([-2.0, -1.0, 3.0]) {
        assert!(C64::norm(x - y) < EPS);
    }

    let mut res = cs(solver::solve_cubic(R(-3.0), R(0.0), R(4.0)));
    res.sort_by(|x, y| x.re.partial_cmp(&y.re).unwrap());
    for (x, y) in res.iter().zip([-1.0, 2.0, 2.0]) {
        assert!(C64::norm(x - y) < 1.0e-7);
    }

    let mut res = cs(solver::pre_solve_quartic(R(-5.0), R(0.0), R(4.0)));
    res.sort_by(|x, y| x.re.partial_cmp(&y.re).unwrap());
    for (x, y) in res.iter().zip([-2.0, -1.0, 1.0, 2.0]) {
        assert!(C64::norm(x - y) < 1e-7);
    }

    let mut res = cs(solver::solve_quartic(R(1.0), R(-7.0), R(-1.0), R(6.0)));
    res.sort_by(|x, y| x.re.partial_cmp(&y.re).unwrap());
    for (x, y) in res.iter().zip([-3.0, -1.0, 1.0, 2.0]) {
        assert!(C64::norm(x * x * x * x + x * x * x - 7.0 * x * x - x + 6.0) < EPS);
        assert!(C64::norm(x - y) < EPS, "{x} {y}");
    }
}

#[test]
fn quadratic_discriminant_branches() {
    // a real pair comes in ascending order with zero imaginary parts
    let res = cs(solver::solve_quadratic(R(-1.0), R(-6.0)));
    assert_eq!(res, [C64::new(-2.0, 0.0), C64::new(3.0, 0.0)]);
    // a complex pair has the positive imaginary part first
    let res = cs(solver::solve_quadratic(R(2.0), R(5.0)));
    assert_eq!(res, [C64::new(-1.0, 2.0), C64::new(-1.0, -2.0)]);
}

// ---- eigenvalues ----

#[test]
fn eigenvalues_matrix2() {
    const EPS: f64 = 1.0e-10;

    let mat = Matrix2::new(R(-4.0), R(-2.0), R(5.0), R(3.0));
    let eigens = cs(mat.eigenvalues());
    assert!((eigens[0] + 2.0).norm() < EPS);
    assert!((eigens[1] - 1.0).norm() < EPS);

    let mat = Matrix2::new(R(0.0), R(1.0), R(-1.0), R(0.0));
    let eigens = cs(mat.eigenvalues());
    assert!((eigens[0] * eigens[0] + 1.0).norm() < EPS);
    assert!((eigens[1] * eigens[1] + 1.0).norm() < EPS);
    assert!((eigens[0] - eigens[1]).norm() > 1.0);

    let mat = Matrix2::new(R(1.0), R(1.0), R(-1.0), R(1.0));
    let eigens = cs(mat.eigenvalues());
    assert!(((eigens[0] - 1.0) * (eigens[0] - 1.0) + 1.0).norm() < EPS);
    assert!(((eigens[1] - 1.0) * (eigens[1] - 1.0) + 1.0).norm() < EPS);
    assert!((eigens[0] - eigens[1]).norm() > 1.0);
}

fn random_unit3() -> cgmath::Vector3<f64> {
    let u = cgmath::Vector2::new(rand::random::<f64>(), rand::random::<f64>());
    let theta = 2.0 * PI * u[0];
    let z = 2.0 * u[1] - 1.0;
    let r = f64::sqrt(1.0 - z * z);
    cgmath::Vector3::new(r * f64::cos(theta), r * f64::sin(theta), z)
}

fn random_vector3() -> cgmath::Vector3<f64> {
    cgmath::Vector3::new(rnd(10.0), rnd(10.0), rnd(10.0))
}

#[test]
fn eigenvalues_matrix3() {
    const EPS: f64 = 1.0e-8;
    (0..1000).for_each(|_i| {
        let diag = random_vector3();
        let p = cgmath::Matrix3::from_axis_angle(random_unit3(), Rad(2.0 * PI * rand::random::<f64>()));
        let ng = random_vector3();
        let nilp = cgmath::Matrix3::new(1.0, 0.0, 0.0, ng.x, 1.0, 0.0, ng.y, ng.z, 1.0);
        let mat = p * nilp * cgmath::Matrix3::from_diagonal(diag) * (p * nilp).invert().unwrap();
        let eigens = cs(from3(mat).eigenvalues());
        [diag.x, diag.y, diag.z].iter().for_each(|e| {
            let any = eigens.iter().any(|x| (e - x).norm() < EPS);
            assert!(any, "{mat:?} {diag:?} {eigens:?}");
        });
    });
}

#[test]
fn matrix4() {
    const EPS: f64 = 1.0e-10;
    let v = [
        67.0, -6.0, -21.0, -55.0, -654.0, 32.0, 138.0, 510.0, 507.0, -22.0, -101.0, -395.0, -2.0,
        -4.0, -10.0, -2.0,
    ]
    .map(R);
    let mat = Matrix4::new(
        v[0], v[1], v[2], v[3], v[4], v[5], v[6], v[7], v[8], v[9], v[10], v[11], v[12], v[13],
        v[14], v[15],
    );
    let mut eigens = cs(mat.eigenvalues());
    eigens.sort_by(|x, y| x.re.partial_cmp(&y.re).unwrap());
    [-12.0, -4.0, 4.0, 8.0].iter().copied().for_each(|x| {
        let any = eigens.iter().any(|e| (e - x).norm() < EPS);
        assert!(any, "{eigens:?}");
    });
}

// ---- norms and the exponential ----

#[test]
fn norms_matrix2() {
    const EPS: f64 = 1.0e-10;
    let mat = Matrix2::new(R(2.0), R(-4.0), R(3.0), R(1.0));
    assert!(f64::abs(mat.norm_l1().0 - 6.0) < EPS);
    assert!(f64::abs(mat.norm_l2().0 - f64::sqrt(15.0 + f64::sqrt(29.0))) < EPS);
    assert!(f64::abs(mat.norm_linf().0 - 5.0) < EPS);
}

#[test]
fn norms_matrix3() {
    const EPS: f64 = 1.5e-10;
    let mat = Matrix3::new(
        R(1.0), R(1.0), R(1.0),
        R(-1.0), R(0.0), R(1.0),
        R(1.0), R(-2.0), R(1.0),
    );
    assert!(f64::abs(mat.norm_l1().0 - 4.0) < EPS);
    assert!(f64::abs(mat.norm_l2().0 - f64::sqrt(6.0)) < EPS);
    assert!(f64::abs(mat.norm_linf().0 - 3.0) < EPS);
}

#[test]
fn norms_column_and_row_sums() {
    let mat = Matrix2::new(R(1.0), R(3.0), R(-2.0), R(4.0));
    assert_eq!(mat.norm_l1().0, 6.0);
    assert_eq!(mat.norm_linf().0, 7.0);
    let ans = (5.0 + f64::sqrt(5.0)) / f64::sqrt(2.0);
    assert!(f64::abs(mat.norm_l2().0 - ans) < 1.0e-10);
    let mat = Matrix4::new(
        R(1.0), R(-2.0), R(0.0), R(0.0),
        R(0.0), R(3.0), R(0.0), R(0.0),
        R(0.0), R(0.0), R(-4.0), R(1.0),
        R(0.0), R(0.0), R(0.0), R(2.0),
    );
    assert_eq!(mat.norm_l1().0, 5.0);
    assert_eq!(mat.norm_linf().0, 5.0);
}

#[test]
fn exp_of_rotation_generator() {
    let x = Matrix2::new(R(0.0), R(1.0), R(-1.0), R(0.0));
    let res = into2(x.exp());
    let ans = cgmath::Matrix2::from_angle(Rad(1.0));
    assert!(from2(res - ans).norm_l1().0 < 1.0e-10);
}

#[test]
fn exp_of_zero_and_diagonal() {
    let zero = Matrix3::from_value(R(0.0));
    let res = into3(zero.exp());
    assert_eq!(res, cgmath::Matrix3::identity());
    let d = Matrix3::from_diagonal(Vector3::new(R(1.0), R(-1.0), R(0.5)));
    let res = into3(d.exp());
    let ans = cgmath::Matrix3::from_diagonal(cgmath::Vector3::new(
        f64::exp(1.0),
        f64::exp(-1.0),
        f64::exp(0.5),
    ));
    assert!(from3(res - ans).norm_l1().0 < 1.0e-12);
}

// ---- decompositions ----

#[test]
fn decomp_matrix2() {
    (0..10000).for_each(|_i| {
        let mat = random2();
        if mat.is_invertible() {
            let (k, a, n) = from2(mat).iwasawa_decomposition().unwrap();
            let res = mat - into2(k) * into2(a) * into2(n);
            assert!(from2(res).norm_l1().0 < 1.0e-8, "{_i} {k:?}\n{a:?}\n{n:?}\n{res:?}");
        }
    });
}

#[test]
fn decomp_matrix3() {
    (0..10000).for_each(|_i| {
        let mat = random3();
        if mat.is_invertible() {
            let (k, a, n) = from3(mat).iwasawa_decomposition().unwrap();
            let res = mat - into3(k) * into3(a) * into3(n);
            assert!(from3(res).norm_l1().0 < 1.0e-8, "{_i} {k:?}\n{a:?}\n{n:?}\n{res:?}");
        }
    });
}

#[test]
fn iwasawa_dependent_columns_fail() {
    let mat = Matrix2::new(R(1.0), R(2.0), R(2.0), R(4.0));
    assert!(mat.iwasawa_decomposition().is_none());
    let mat = Matrix3::new(
        R(0.0), R(0.0), R(0.0),
        R(1.0), R(0.0), R(0.0),
        R(0.0), R(1.0), R(0.0),
    );
    assert!(mat.iwasawa_decomposition().is_none());
}

#[test]
fn iwasawa_factors_have_their_shapes() {
    let (k, a, n) = Matrix2::new(R(3.0), R(4.0), R(1.0), R(2.0)).iwasawa_decomposition().unwrap();
    let (k, a, n) = (into2(k), into2(a), into2(n));
    assert!((k.transpose() * k - cgmath::Matrix2::identity()).x.magnitude() < 1e-12);
    assert_eq!(a.x.y, 0.0);
    assert_eq!(a.y.x, 0.0);
    assert_eq!((n.x.x, n.x.y, n.y.y), (1.0, 0.0, 1.0));
    assert!((a.x.x - 5.0).abs() < 1e-12);
}

#[test]
fn cartan_round_trip_matrix2() {
    (0..1000).for_each(|_i| {
        let mat = random2();
        if mat.determinant().abs() > 1.0e-3 {
            let (k, s) = from2(mat).cartan_decomposition().unwrap();
            let back = into2(k) * into2(s.exp());
            assert!(from2(back - mat).norm_l1().0 < 1.0e-6, "{mat:?}");
            let kk = into2(k).transpose() * into2(k) - cgmath::Matrix2::identity();
            assert!(from2(kk).norm_l1().0 < 1.0e-6);
            assert!((s.x.y.0 - s.y.x.0).abs() < 1.0e-8);
        }
    });
}

#[test]
fn cartan_round_trip_matrix3() {
    (0..1000).for_each(|_i| {
        let mat = random3();
        if mat.determinant().abs() > 1.0e-2 {
            let (k, s) = from3(mat).cartan_decomposition().unwrap();
            let back = into3(k) * into3(s.exp());
            assert!(from3(back - mat).norm_l1().0 < 1.0e-6, "{mat:?}");
            let kk = into3(k).transpose() * into3(k) - cgmath::Matrix3::identity();
            assert!(from3(kk).norm_l1().0 < 1.0e-6);
            let st = into3(s);
            assert!(from3(st - st.transpose()).norm_l1().0 < 1.0e-8);
        }
    });
}

#[test]
fn cartan_singular_and_diagonal() {
    let mat = Matrix2::new(R(1.0), R(2.0), R(2.0), R(4.0));
    assert!(mat.cartan_decomposition().is_none());
    let mat = Matrix3::from_diagonal(Vector3::new(R(2.0), R(-3.0), R(0.5)));
    let (k, s) = mat.cartan_decomposition().unwrap();
    let (k, s) = (into3(k), into3(s));
    assert_eq!((k.x.x, k.y.y, k.z.z), (1.0, -1.0, 1.0));
    assert!((s.x.x - f64::ln(2.0)).abs() < 1e-12);
    assert!((s.y.y - f64::ln(3.0)).abs() < 1e-12);
    assert!((s.z.z - f64::ln(0.5)).abs() < 1e-12);
    let mat = Matrix2::new(R(-2.0), R(0.0), R(0.0), R(3.0));
    let (k, s) = mat.cartan_decomposition().unwrap();
    assert_eq!((k.x.x.0, k.y.y.0), (-1.0, 1.0));
    assert!((s.y.y.0 - f64::ln(3.0)).abs() < 1e-12);
}

#[test]
fn similarity_keeps_eigenvalues() {
    let p = cgmath::Matrix2::new(2.0, 1.0, 1.0, 1.0);
    let d = cgmath::Matrix2::from_diagonal(cgmath::Vector2::new(3.0, -1.0));
    let mat = p * d * p.invert().unwrap();
    let mut e = cs(from2(mat).eigenvalues());
    e.sort_by(|x, y| x.re.partial_cmp(&y.re).unwrap());
    assert!((e[0] + 1.0).norm() < 1e-10);
    assert!((e[1] - 3.0).norm() < 1e-10);
}

// ---- eigenvector helpers ----

#[test]
fn spectrum_clusters() {
    let t = R(1.0e-3);
    assert_eq!(spectrum(R(1.0), R(2.0), R(3.0), t), Spectrum::Distinct);
    assert_eq!(spectrum(R(1.0), R(1.0001), R(3.0), t), Spectrum::Pair01);
    assert_eq!(spectrum(R(1.0), R(3.0), R(3.0001), t), Spectrum::Pair12);
    assert_eq!(spectrum(R(3.0001), R(1.0), R(3.0), t), Spectrum::Pair20);
    assert_eq!(spectrum(R(2.0), R(2.0), R(2.0), t), Spectrum::AllEqual);
}

#[test]
fn kernel_vectors() {
    // rank one 2×2: rows (1, 2) and (2, 4); the kernel is spanned by (-2, 1)
    let v = solve2(Matrix2::new(R(1.0), R(2.0), R(2.0), R(4.0)));
    assert!((v.x.0 * 1.0 + v.y.0 * 2.0).abs() < 1e-12);
    assert!((v.x.0 * v.x.0 + v.y.0 * v.y.0 - 1.0).abs() < 1e-12);
    // rank two 3×3 with kernel along z
    let v = solve3(Matrix3::new(
        R(1.0), R(0.0), R(0.0),
        R(0.0), R(2.0), R(0.0),
        R(0.0), R(0.0), R(0.0),
    ));
    assert!((v.z.0.abs() - 1.0).abs() < 1e-12 && v.x.0 == 0.0 && v.y.0 == 0.0);
    // normals of (0, 0, 2) are orthogonal unit vectors in the xy plane
    let (a, b) = get_normals(Vector3::new(R(0.0), R(0.0), R(2.0)));
    for u in [a, b] {
        assert_eq!(u.z.0, 0.0);
        assert!((u.x.0 * u.x.0 + u.y.0 * u.y.0 - 1.0).abs() < 1e-12);
    }
    // rank one 3×3 with every row along (1, 1, 0): the kernel is the plane x + y = 0 plus z
    let (a, b) = degenerate2_solve3(Matrix3::new(
        R(1.0), R(1.0), R(1.0),
        R(1.0), R(1.0), R(1.0),
        R(0.0), R(0.0), R(0.0),
    ));
    assert!((a.x.0 * b.x.0 + a.y.0 * b.y.0 + a.z.0 * b.z.0).abs() < 1e-12);
    for u in [a, b] {
        assert!((u.x.0 + u.y.0).abs() < 1e-12);
        assert!((u.x.0 * u.x.0 + u.y.0 * u.y.0 + u.z.0 * u.z.0 - 1.0).abs() < 1e-12);
    }
}

#[test]
fn norm_linf_is_norm_l1_of_transpose() {
    (0..100).for_each(|_| {
        let m = from3(random3());
        assert_eq!(m.norm_linf(), m.transpose().norm_l1());
        let m = from2(random2());
        assert_eq!(m.norm_linf(), m.transpose().norm_l1());
    });
}

#[test]
fn normals_are_orthonormal() {
    // the row (4, 2, 2) of A - I for A = I + v vᵗ, v = (2, 1, 1)
    let v = Vector3::new(R(4.0), R(2.0), R(2.0));
    let (a, b) = get_normals(v);
    let dot = |p: Vector3<R>, q: Vector3<R>| p.x.0 * q.x.0 + p.y.0 * q.y.0 + p.z.0 * q.z.0;
    assert!(dot(a, b).abs() < 1e-12);
    assert!(dot(a, v).abs() < 1e-12 && dot(b, v).abs() < 1e-12);
    assert!((dot(a, a) - 1.0).abs() < 1e-12 && (dot(b, b) - 1.0).abs() < 1e-12);
}

fn cartan_round_trip3(mat: cgmath::Matrix3<f64>) {
    let (k, s) = from3(mat).cartan_decomposition().unwrap();
    let e = into3(s.exp());
    let back = into3(k) * e;
    assert!(from3(back - mat).norm_l1().0 < 1.0e-8, "{mat:?} {back:?}");
    assert!(from3(e * e - mat.transpose() * mat).norm_l1().0 < 1.0e-8);
    let kk = into3(k).transpose() * into3(k) - cgmath::Matrix3::identity();
    assert!(from3(kk).norm_l1().0 < 1.0e-8);
}

#[test]
fn cartan_repeated_eigenvalue_pair() {
    // B = I + v vᵗ with v = (2, 1, 1): BᵗB = I + 8 v vᵗ has eigenvalues 49, 1, 1
    let b = cgmath::Matrix3::new(5.0, 2.0, 2.0, 2.0, 2.0, 1.0, 2.0, 1.0, 2.0);
    let t = f64::EPSILON.sqrt();
    let a = from3(b).transpose().mul(from3(b));
    let e = a.eigenvalues();
    assert_eq!(spectrum(e[0].re, e[1].re, e[2].re, R(t)), Spectrum::Pair12);
    cartan_round_trip3(b);
    // B is symmetric positive definite: K is the identity
    let (k, _) = from3(b).cartan_decomposition().unwrap();
    assert!(from3(into3(k) - cgmath::Matrix3::identity()).norm_l1().0 < 1.0e-8);
    // a cyclic permutation of the rows keeps MᵗM exactly
    let p = cgmath::Matrix3::new(0.0, 1.0, 0.0, 0.0, 0.0, 1.0, 1.0, 0.0, 0.0);
    cartan_round_trip3(p * b);
    // 2I + (1, 1, 1)(1, 1, 1)ᵗ: eigenvalues 5, 2, 2 before squaring
    cartan_round_trip3(cgmath::Matrix3::new(3.0, 1.0, 1.0, 1.0, 3.0, 1.0, 1.0, 1.0, 3.0));
}

#[test]
fn cartan_all_eigenvalues_equal() {
    // twice a quarter turn about z: MᵗM = 4I
    let mat = cgmath::Matrix3::from_angle_z(Rad(PI / 2.0)) * 2.0;
    cartan_round_trip3(mat);
    let (_, s) = from3(mat).cartan_decomposition().unwrap();
    let s = into3(s);
    assert!((s.x.x - f64::ln(2.0)).abs() < 1e-12 && s.x.y.abs() < 1e-12);
}

#[test]
fn matrix4_determinant() {
    let m = Matrix4::new(
        R(2.0), R(0.0), R(1.0), R(3.0),
        R(1.0), R(1.0), R(0.0), R(2.0),
        R(0.0), R(4.0), R(1.0), R(1.0),
        R(3.0), R(2.0), R(0.0), R(1.0),
    );
    let c = cgmath::Matrix4::new(
        2.0, 0.0, 1.0, 3.0, 1.0, 1.0, 0.0, 2.0, 0.0, 4.0, 1.0, 1.0, 3.0, 2.0, 0.0, 1.0,
    );
    assert_eq!(m.determinant().0, c.determinant());
}

#[test]
fn cartan_equal_eigenvalues_matrix2() {
    // a scaled rotation: MᵗM is 10⁶·I up to rounding off the diagonal
    let mat = cgmath::Matrix2::from_angle(Rad(0.3)) * 1000.0;
    let (k, s) = from2(mat).cartan_decomposition().unwrap();
    let back = into2(k) * into2(s.exp());
    assert!(from2(back - mat).norm_l1().0 < 1.0e-8 * 1000.0, "{back:?}");
    let kk = into2(k).transpose() * into2(k) - cgmath::Matrix2::identity();
    assert!(from2(kk).norm_l1().0 < 1.0e-8);
    assert!((s.x.x.0 - f64::ln(1000.0)).abs() < 1.0e-8);
}

#[test]
fn cartan_diagonal_gram_matrix() {
    // MᵗM = diag(4, 1) is diagonal while M is not: no zero diagonal entry of M is taken
    let mat = cgmath::Matrix2::new(0.0, 1.0, -2.0, 0.0);
    let (k, s) = from2(mat).cartan_decomposition().unwrap();
    let back = into2(k) * into2(s.exp());
    assert!(from2(back - mat).norm_l1().0 < 1.0e-10, "{back:?}");
    assert!((s.x.x.0 - f64::ln(1.0)).abs() < 1e-12 && (s.y.y.0 - f64::ln(2.0)).abs() < 1e-12);
    let mat = cgmath::Matrix3::new(0.0, 1.0, 0.0, -2.0, 0.0, 0.0, 0.0, 0.0, 3.0);
    cartan_round_trip3(mat);
}
