//! Group-law facts of the curve: the identity element behaves as a neutral
//! element, and a point plus its mirror image is the identity.

use vstd::prelude::*;
use crate::curve::Point;
use crate::curve::spec_point_add;
use crate::field::F5x2;
use crate::field::spec_div;
use crate::field::spec_inverse;
use crate::field::spec_mul;
use crate::field::spec_neg;
use crate::field::spec_sub;
use crate::field::spec_zero;
use crate::field_laws::lemma_add_neg;
use crate::field_laws::lemma_double_nonzero;
use crate::field_laws::lemma_inverse_unique;
use crate::field_laws::lemma_mul_assoc;
use crate::field_laws::lemma_mul_comm;
use crate::field_laws::lemma_mul_distrib;
use crate::field_laws::lemma_mul_inverse;
use crate::field_laws::lemma_mul_neg_neg;
use crate::field_laws::lemma_mul_neg_right;
use crate::field_laws::lemma_mul_one;
use crate::field_laws::lemma_neg_involution;
use crate::field_laws::lemma_ops_valid;
use crate::field_laws::lemma_sub_add_cancel;
use crate::field_laws::lemma_sub_antisym;
use crate::field_laws::lemma_sub_chain;
use crate::field_laws::lemma_sub_nonzero;
use crate::field_laws::lemma_sub_sub_swap;

verus! {

/// The point at infinity is neutral: adding it on either side returns the
/// other operand unchanged.
pub proof fn lemma_point_add_identity(p: Point, a: F5x2)
    ensures
        spec_point_add(p, Point::Identity, a) == p,
        spec_point_add(Point::Identity, p, a) == p,
{
}

/// A point and its mirror image over the x-axis add to the identity:
/// for P = (x, y) and Q = (x, -y), P + Q = O, whether through the
/// equal-x-differing-y rule or, when y = -y = 0, through the order-2
/// doubling rule.
pub proof fn lemma_point_add_inverse_pair(x: F5x2, y: F5x2, a: F5x2)
    requires
        x.valid(),
        y.valid(),
    ensures
        spec_point_add(
            Point::Affine { x, y },
            Point::Affine { x, y: spec_neg(y) },
            a,
        ) == Point::Identity,
{
    lemma_ops_valid(y, y);
    if spec_neg(y) == y {
        if y != spec_zero() {
            lemma_add_neg(y);
            lemma_double_nonzero(y);
        }
    }
}

/// Negating a nonzero element gives a nonzero element, and its inverse is
/// the negation of the original's inverse.
proof fn lemma_inverse_of_neg(d: F5x2)
    requires
        d.valid(),
        d != spec_zero(),
    ensures
        spec_neg(d) != spec_zero(),
        spec_inverse(spec_neg(d)) == spec_neg(spec_inverse(d)),
{
    lemma_ops_valid(d, d);
    lemma_neg_involution(d);
    assert(spec_neg(spec_zero()) == spec_zero());
    lemma_ops_valid(spec_inverse(d), d);
    lemma_mul_neg_neg(d, spec_inverse(d));
    lemma_mul_inverse(d);
    lemma_mul_inverse(spec_neg(d));
    lemma_ops_valid(spec_neg(d), spec_neg(d));
    lemma_inverse_unique(
        spec_neg(d),
        spec_neg(spec_inverse(d)),
        spec_inverse(spec_neg(d)),
    );
}

/// The group law is commutative: P + Q = Q + P for all points.
pub proof fn lemma_point_add_comm(p: Point, q: Point, a: F5x2)
    requires
        p.valid(),
        q.valid(),
        a.valid(),
    ensures
        spec_point_add(p, q, a) == spec_point_add(q, p, a),
{
    if let (Point::Affine { x: x1, y: y1 }, Point::Affine { x: x2, y: y2 }) = (p, q) {
        if x1 != x2 {
            let u = spec_sub(y2, y1);
            let dd = spec_sub(x2, x1);
            let ui = spec_inverse(dd);
            let lam = spec_mul(u, ui);
            lemma_sub_nonzero(x2, x1);
            lemma_ops_valid(y2, y1);
            lemma_ops_valid(x2, x1);
            lemma_ops_valid(dd, dd);
            lemma_ops_valid(u, ui);
            // the swapped slope is built from the negations of u and dd
            lemma_sub_antisym(y1, y2);
            lemma_sub_antisym(x1, x2);
            lemma_inverse_of_neg(dd);
            lemma_mul_neg_neg(u, ui);
            assert(spec_div(spec_sub(y1, y2), spec_sub(x1, x2)) == lam);
            // the slope times (x1 - x2) is (y1 - y2)
            lemma_mul_neg_right(lam, dd);
            lemma_mul_assoc(u, ui, dd);
            lemma_mul_comm(ui, dd);
            lemma_mul_inverse(dd);
            lemma_mul_one(u);
            assert(spec_mul(lam, spec_sub(x1, x2)) == spec_neg(u));
            // both orders give one x-coordinate for the sum
            let x3 = spec_sub(spec_sub(spec_mul(lam, lam), x1), x2);
            lemma_sub_sub_swap(spec_mul(lam, lam), x1, x2);
            // and from that one x-coordinate, one y-coordinate
            let t = spec_mul(lam, spec_sub(x2, x3));
            lemma_sub_chain(x1, x2, x3);
            lemma_mul_distrib(lam, spec_sub(x1, x2), spec_sub(x2, x3));
            lemma_sub_add_cancel(y1, y2, t);
            assert(spec_sub(spec_mul(lam, spec_sub(x1, x3)), y1) == spec_sub(t, y2));
        }
    }
}

} // verus!
