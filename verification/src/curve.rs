//! Points on a short-Weierstrass elliptic curve over GF(5^2) and the
//! chord-and-tangent group law.
//!
//! A point is either the identity (the point at infinity) or an affine pair
//! of field elements; the tagged representation makes a half-built point
//! unrepresentable. The curve parameter `a` of y^2 = x^3 + a*x + b is passed
//! to each group-law call; the parameter `b` plays no part in the addition
//! formulas.

use vstd::prelude::*;
use crate::field::F5x2;
use crate::field::spec_add;
use crate::field::spec_div;
use crate::field::spec_mul;
use crate::field::spec_sub;
use crate::field::spec_three;
use crate::field::spec_zero;
use crate::field_laws::lemma_double_nonzero;
use crate::field_laws::lemma_ops_valid;
use crate::field_laws::lemma_sub_nonzero;

verus! {

/// A point of the curve group: the identity, or an affine point with both
/// coordinates present.
#[derive(Clone, Copy, Debug, PartialEq, Eq, Structural)]
pub enum Point {
    Identity,
    Affine { x: F5x2, y: F5x2 },
}

/// The failure of point construction: exactly one of the two optional
/// coordinates was supplied.
#[derive(Clone, Copy, Debug, PartialEq, Eq, Structural)]
pub enum PointError {
    InvalidPoint,
}

impl Point {
    /// The identity, or an affine point whose coordinates are both reduced.
    pub open spec fn valid(self) -> bool {
        match self {
            Point::Identity => true,
            Point::Affine { x, y } => x.valid() && y.valid(),
        }
    }

    /// Constructs a point from two optional coordinates: both absent gives
    /// the identity, both present an affine point, and exactly one present
    /// is rejected as an invalid point.
    pub fn new(x: Option<F5x2>, y: Option<F5x2>) -> (r: Result<Point, PointError>)
        ensures
            x is None && y is None ==> r == Ok::<Point, PointError>(Point::Identity),
            x is Some && y is Some ==> r == Ok::<Point, PointError>(
                Point::Affine { x: x->0, y: y->0 },
            ),
            (x is Some) != (y is Some) ==> r == Err::<Point, PointError>(PointError::InvalidPoint),
    {
        match (x, y) {
            (None, None) => Ok(Point::Identity),
            (Some(xv), Some(yv)) => Ok(Point::Affine { x: xv, y: yv }),
            _ => Err(PointError::InvalidPoint),
        }
    }

    /// Whether the point is the identity (the point at infinity).
    pub fn is_infinity(&self) -> (r: bool)
        ensures
            r == (*self is Identity),
    {
        match self {
            Point::Identity => true,
            Point::Affine { .. } => false,
        }
    }
}

/// The affine outcome of one chord or tangent step: from the slope `lam`
/// the sum has x3 = lam^2 - x1 - x2 and y3 = lam*(x1 - x3) - y1.
pub open spec fn spec_affine_sum(lam: F5x2, x1: F5x2, x2: F5x2, y1: F5x2) -> Point {
    let x3 = spec_sub(spec_sub(spec_mul(lam, lam), x1), x2);
    Point::Affine { x: x3, y: spec_sub(spec_mul(lam, spec_sub(x1, x3)), y1) }
}

/// The full group law on curve parameter `a`, in order of precedence:
/// an identity operand is returned unchanged; equal x with differing y is a
/// point plus its inverse and gives the identity; a point of order 2
/// (y = 0) doubles to the identity; otherwise the tangent slope
/// (3*x1^2 + a) / (2*y1) or the chord slope (y2 - y1) / (x2 - x1) feeds the
/// affine sum.
pub open spec fn spec_point_add(p: Point, q: Point, a: F5x2) -> Point {
    match p {
        Point::Identity => q,
        Point::Affine { x: x1, y: y1 } => match q {
            Point::Identity => p,
            Point::Affine { x: x2, y: y2 } => {
                if x1 == x2 && y1 != y2 {
                    Point::Identity
                } else if x1 == x2 && y1 == y2 {
                    if y1 == spec_zero() {
                        Point::Identity
                    } else {
                        let num = spec_add(spec_mul(spec_mul(x1, x1), spec_three()), a);
                        let den = spec_add(y1, y1);
                        spec_affine_sum(spec_div(num, den), x1, x2, y1)
                    }
                } else {
                    spec_affine_sum(spec_div(spec_sub(y2, y1), spec_sub(x2, x1)), x1, x2, y1)
                }
            },
        },
    }
}

/// Adds two points of the curve with parameter `a`. The two non-invertible
/// denominators that the algebra can produce, a point plus its inverse and
/// the doubling of a point of order 2, are recognised and resolved to the
/// identity before any division, so the division itself never fails.
pub fn point_add(p: Point, q: Point, a: F5x2) -> (r: Point)
    requires
        p.valid(),
        q.valid(),
        a.valid(),
    ensures
        r == spec_point_add(p, q, a),
        r.valid(),
{
    match p {
        Point::Identity => q,
        Point::Affine { x: x1, y: y1 } => match q {
            Point::Identity => p,
            Point::Affine { x: x2, y: y2 } => {
                if x1 == x2 && y1 != y2 {
                    Point::Identity
                } else {
                    let zero = F5x2::new(0, 0);
                    if x1 == x2 && y1 == y2 && y1 == zero {
                        Point::Identity
                    } else {
                        let lam_res = if x1 == x2 && y1 == y2 {
                            let three = F5x2::new(3, 0);
                            let num = x1.mul(x1).mul(three).add(a);
                            let den = y1.add(y1);
                            proof {
                                lemma_double_nonzero(y1);
                            }
                            num.div(den)
                        } else {
                            proof {
                                lemma_sub_nonzero(x2, x1);
                            }
                            y2.sub(y1).div(x2.sub(x1))
                        };
                        let lam = match lam_res {
                            Ok(l) => l,
                            Err(_) => zero,
                        };
                        let x3 = lam.mul(lam).sub(x1).sub(x2);
                        let y3 = lam.mul(x1.sub(x3)).sub(y1);
                        Point::Affine { x: x3, y: y3 }
                    }
                }
            },
        },
    }
}

} // verus!
