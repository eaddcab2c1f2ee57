//! Arithmetic in the finite field GF(5^2) and the elliptic-curve group law
//! over it.
//!
//! The field is built as Z_5[t]/(t^2 + 2), so t^2 = 3 (mod 5); an element is
//! a pair (a, b) standing for a + b*t with both coordinates reduced modulo 5.
//! On top of the field sits the short-Weierstrass chord-and-tangent addition
//! of affine points together with the point at infinity.

pub mod curve;
pub mod curve_laws;
pub mod field;
pub mod field_laws;

pub use curve::Point;
pub use curve::PointError;
pub use curve::point_add;
pub use field::F5x2;
pub use field::FieldError;
