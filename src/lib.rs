//! Eigenvalues, operator norms, the matrix exponential and the Iwasawa and
//! Cartan decompositions of 2×2, 3×3 and 4×4 matrices, with closed-form
//! solvers for the polynomial equations behind them.
//!
//! Every routine is generic over a [`Scalar`]: a real number type whose
//! operations are modelled by spec functions. Each public function states the
//! exact value it computes in terms of those operations.
//!
//! - [`solver`]: quadratic, cubic and quartic equations.
//! - [`eigens`]: eigenvalues and the l¹, l² and l∞ operator norms.
//! - [`exp`]: the matrix exponential.
//! - [`decomp`]: the Iwasawa and Cartan decompositions.

pub mod complex;
pub mod decomp;
pub mod eigens;
pub mod exp;
pub mod matrix2;
pub mod matrix3;
pub mod matrix4;
pub mod scalar;
pub mod solver;
pub mod vector;

pub use complex::Complex;
pub use scalar::Scalar;
