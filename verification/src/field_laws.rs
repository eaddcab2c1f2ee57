//! Algebraic laws of GF(5^2): commutativity, associativity, identities,
//! distributivity, inverses, and the helper facts about negation and
//! subtraction that the curve group law relies on.

use vstd::prelude::*;
use vstd::arithmetic::div_mod::lemma_fundamental_div_mod;
use vstd::arithmetic::div_mod::lemma_mod_bound;
use vstd::arithmetic::div_mod::lemma_mod_equivalence;
use vstd::arithmetic::div_mod::lemma_mod_add_multiples_vanish;
use vstd::arithmetic::div_mod::lemma_mod_multiples_basic;
use vstd::arithmetic::div_mod::lemma_mul_mod_noop_left;
use vstd::arithmetic::div_mod::lemma_small_mod;
use crate::field::F5x2;
use crate::field::spec_add;
use crate::field::spec_div;
use crate::field::spec_inverse;
use crate::field::spec_mod_inverse5;
use crate::field::spec_mul;
use crate::field::spec_neg;
use crate::field::spec_norm;
use crate::field::spec_one;
use crate::field::spec_sub;
use crate::field::spec_zero;

verus! {

/// Two integers whose difference is a multiple of 5 have the same
/// remainder modulo 5.
pub proof fn lemma_cong5(x: int, y: int, k: int)
    requires
        x - y == 5 * k,
    ensures
        x % 5 == y % 5,
{
    lemma_mod_equivalence(x, y, 5);
    lemma_mod_multiples_basic(k, 5);
    assert(x - y == k * 5);
}

/// Addition is commutative.
pub proof fn lemma_add_comm(x: F5x2, y: F5x2)
    ensures
        spec_add(x, y) == spec_add(y, x),
{
}

/// Addition is associative.
pub proof fn lemma_add_assoc(x: F5x2, y: F5x2, z: F5x2)
    ensures
        spec_add(spec_add(x, y), z) == spec_add(x, spec_add(y, z)),
{
    let a = x.a as int;
    let b = x.b as int;
    let c = y.a as int;
    let d = y.b as int;
    let e = z.a as int;
    let f = z.b as int;
    lemma_fundamental_div_mod(a + c, 5);
    lemma_fundamental_div_mod(b + d, 5);
    lemma_fundamental_div_mod(c + e, 5);
    lemma_fundamental_div_mod(d + f, 5);
    lemma_cong5((a + c) % 5 + e, a + (c + e) % 5, (c + e) / 5 - (a + c) / 5);
    lemma_cong5((b + d) % 5 + f, b + (d + f) % 5, (d + f) / 5 - (b + d) / 5);
}

/// Adding the additive identity changes nothing.
pub proof fn lemma_add_zero(x: F5x2)
    requires
        x.valid(),
    ensures
        spec_add(x, spec_zero()) == x,
{
}

/// Subtracting an element from itself gives the additive identity.
pub proof fn lemma_sub_self(x: F5x2)
    ensures
        spec_sub(x, x) == spec_zero(),
{
}

/// Multiplication is commutative.
pub proof fn lemma_mul_comm(x: F5x2, y: F5x2)
    ensures
        spec_mul(x, y) == spec_mul(y, x),
{
    let a = x.a as int;
    let b = x.b as int;
    let c = y.a as int;
    let d = y.b as int;
    assert(a * c + 3 * (b * d) == c * a + 3 * (d * b) && a * d + b * c == c * b + d * a)
        by (nonlinear_arith);
}

/// Multiplying by the multiplicative identity changes nothing.
pub proof fn lemma_mul_one(x: F5x2)
    requires
        x.valid(),
    ensures
        spec_mul(x, spec_one()) == x,
{
    let a = x.a as int;
    let b = x.b as int;
    assert(a * 1 + 3 * (b * 0) == a && a * 0 + b * 1 == b) by (nonlinear_arith);
}

/// Multiplying by the additive identity gives the additive identity.
pub proof fn lemma_mul_zero(x: F5x2)
    ensures
        spec_mul(x, spec_zero()) == spec_zero(),
{
    let a = x.a as int;
    let b = x.b as int;
    assert(a * 0 + 3 * (b * 0) == 0 && a * 0 + b * 0 == 0) by (nonlinear_arith);
}

/// Reducing the two distinguished factors modulo 5 before a two-term
/// combination does not change the combination's remainder modulo 5.
pub proof fn lemma_mod5_drop_pair(u: int, p: int, k: int, v: int, q: int)
    ensures
        ((p % 5) * u + k * ((q % 5) * v)) % 5 == (p * u + k * (q * v)) % 5,
        (u * (p % 5) + k * (v * (q % 5))) % 5 == (u * p + k * (v * q)) % 5,
{
    lemma_fundamental_div_mod(p, 5);
    lemma_fundamental_div_mod(q, 5);
    let qp = p / 5;
    let qq = q / 5;
    let pm = p % 5;
    let qm = q % 5;
    assert(pm * u + k * (qm * v) - (p * u + k * (q * v)) == 5 * (0 - qp * u - k * (qq * v))
        && u * pm + k * (v * qm) - (u * p + k * (v * q)) == 5 * (0 - u * qp - k * (v * qq)))
        by (nonlinear_arith)
        requires
            pm == p - 5 * qp,
            qm == q - 5 * qq,
    ;
    lemma_cong5(pm * u + k * (qm * v), p * u + k * (q * v), 0 - qp * u - k * (qq * v));
    lemma_cong5(u * pm + k * (v * qm), u * p + k * (v * q), 0 - u * qp - k * (v * qq));
}

/// Multiplication is associative.
#[verifier::rlimit(50)]
pub proof fn lemma_mul_assoc(x: F5x2, y: F5x2, z: F5x2)
    ensures
        spec_mul(spec_mul(x, y), z) == spec_mul(x, spec_mul(y, z)),
{
    let a = x.a as int;
    let b = x.b as int;
    let c = y.a as int;
    let d = y.b as int;
    let e = z.a as int;
    let f = z.b as int;
    let g = a * c + 3 * (b * d);
    let h = a * d + b * c;
    let i = c * e + 3 * (d * f);
    let j = c * f + d * e;
    lemma_mod5_drop_pair(e, g, 3, f, h);
    lemma_mod5_drop_pair(a, i, 3, b, j);
    lemma_mod5_drop_pair(f, g, 1, e, h);
    lemma_mod5_drop_pair(a, j, 1, b, i);
    assert(g * e + 3 * (h * f) == a * i + 3 * (b * j) && g * f + h * e == a * j + b * i) by {
        broadcast use vstd::arithmetic::mul::group_mul_properties;

    }
}

/// The square of a residue modulo 5, by exhaustive cases.
proof fn lemma_square_table(v: int)
    requires
        0 <= v < 5,
    ensures
        v * v == (if v == 0 {
            0int
        } else if v == 1 {
            1int
        } else if v == 2 {
            4int
        } else if v == 3 {
            9int
        } else {
            16int
        }),
{
    if v == 0 {
        assert(v * v == 0) by (nonlinear_arith)
            requires
                v == 0,
        ;
    } else if v == 1 {
        assert(v * v == 1) by (nonlinear_arith)
            requires
                v == 1,
        ;
    } else if v == 2 {
        assert(v * v == 4) by (nonlinear_arith)
            requires
                v == 2,
        ;
    } else if v == 3 {
        assert(v * v == 9) by (nonlinear_arith)
            requires
                v == 3,
        ;
    } else {
        assert(v * v == 16) by (nonlinear_arith)
            requires
                v == 4,
        ;
    }
}

/// The norm form a^2 + 2*b^2 is anisotropic modulo 5: it vanishes only at
/// (0, 0). This is what makes every nonzero element invertible.
pub proof fn lemma_norm_nonzero(x: F5x2)
    requires
        x.valid(),
        x != spec_zero(),
    ensures
        1 <= spec_norm(x) <= 4,
{
    lemma_square_table(x.a as int);
    lemma_square_table(x.b as int);
}

/// The table behind `spec_mod_inverse5` is correct: each nonzero residue
/// times its table entry is 1 modulo 5.
pub proof fn lemma_mod_inverse5_works(n: int)
    requires
        1 <= n <= 4,
    ensures
        1 <= spec_mod_inverse5(n) <= 4,
        (n * spec_mod_inverse5(n)) % 5 == 1,
{
    if n == 1 {
        assert(n * spec_mod_inverse5(n) == 1) by (nonlinear_arith)
            requires
                n == 1 && spec_mod_inverse5(n) == 1,
        ;
    } else if n == 2 {
        assert(n * spec_mod_inverse5(n) == 6) by (nonlinear_arith)
            requires
                n == 2 && spec_mod_inverse5(n) == 3,
        ;
    } else if n == 3 {
        assert(n * spec_mod_inverse5(n) == 6) by (nonlinear_arith)
            requires
                n == 3 && spec_mod_inverse5(n) == 2,
        ;
    } else {
        assert(n * spec_mod_inverse5(n) == 16) by (nonlinear_arith)
            requires
                n == 4 && spec_mod_inverse5(n) == 4,
        ;
    }
}

/// The conjugate-norm construction inverts: if u inverts the norm of x
/// modulo 5 and w is the conjugate of x scaled by u, then x * w = 1.
pub proof fn lemma_conjugate_inverse(x: F5x2, w: F5x2, u: int)
    requires
        x.valid(),
        0 <= u < 5,
        (spec_norm(x) * u) % 5 == 1,
        w.a == (x.a * u) % 5,
        w.b == (5 - (x.b * u) % 5) % 5,
    ensures
        w.valid(),
        spec_mul(x, w) == spec_one(),
{
    let a = x.a as int;
    let b = x.b as int;
    let p = a * u;
    let q = b * u;
    let n = a * a + 2 * (b * b);
    lemma_fundamental_div_mod(q, 5);
    let qq = q / 5;
    let qm = q % 5;
    // first coordinate: a * w.a + 3 * (b * w.b) = 1 (mod 5)
    lemma_mod5_drop_pair(a, p, 3, b, 5 - qm);
    assert(a * p + 3 * (b * (5 - qm)) - n * u == 5 * (3 * b - b * q + 3 * (b * qq)))
        by (nonlinear_arith)
        requires
            qm == q - 5 * qq,
            p == a * u,
            q == b * u,
            n == a * a + 2 * (b * b),
    ;
    lemma_cong5(a * p + 3 * (b * (5 - qm)), n * u, 3 * b - b * q + 3 * (b * qq));
    lemma_mul_mod_noop_left(n, u, 5);
    // second coordinate: a * w.b + b * w.a = 0 (mod 5)
    lemma_mod5_drop_pair(a, 5 - qm, 1, b, p);
    assert(a * (5 - qm) + 1 * (b * p) - 0 == 5 * (a + a * qq)) by (nonlinear_arith)
        requires
            qm == q - 5 * qq,
            p == a * u,
            q == b * u,
    ;
    lemma_cong5(a * (5 - qm) + 1 * (b * p), 0, a + a * qq);
}

/// For every nonzero x, multiplying x by its inverse gives the
/// multiplicative identity.
pub proof fn lemma_mul_inverse(x: F5x2)
    requires
        x.valid(),
        x != spec_zero(),
    ensures
        spec_inverse(x).valid(),
        spec_mul(x, spec_inverse(x)) == spec_one(),
{
    lemma_norm_nonzero(x);
    lemma_mod_inverse5_works(spec_norm(x));
    lemma_conjugate_inverse(x, spec_inverse(x), spec_mod_inverse5(spec_norm(x)));
}

/// The multiplicative inverse is unique: two elements that both multiply
/// x to 1 are equal.
pub proof fn lemma_inverse_unique(x: F5x2, v: F5x2, w: F5x2)
    requires
        spec_mul(x, v) == spec_one(),
        spec_mul(x, w) == spec_one(),
        v.valid(),
        w.valid(),
    ensures
        v == w,
{
    lemma_mul_one(v);
    lemma_mul_assoc(v, x, w);
    lemma_mul_comm(v, x);
    lemma_mul_comm(spec_one(), w);
    lemma_mul_one(w);
}

/// Dividing a nonzero element by itself gives the multiplicative identity.
pub proof fn lemma_div_self(x: F5x2)
    requires
        x.valid(),
        x != spec_zero(),
    ensures
        spec_div(x, x) == spec_one(),
{
    lemma_mul_inverse(x);
}

/// Multiplication distributes over addition.
pub proof fn lemma_mul_distrib(x: F5x2, y: F5x2, z: F5x2)
    ensures
        spec_mul(x, spec_add(y, z)) == spec_add(spec_mul(x, y), spec_mul(x, z)),
{
    let a = x.a as int;
    let b = x.b as int;
    let c = y.a as int;
    let d = y.b as int;
    let e = z.a as int;
    let f = z.b as int;
    let s = c + e;
    let t = d + f;
    let g = a * c + 3 * (b * d);
    let h = a * e + 3 * (b * f);
    let i = a * d + b * c;
    let j = a * f + b * e;
    lemma_fundamental_div_mod(s, 5);
    lemma_fundamental_div_mod(t, 5);
    lemma_fundamental_div_mod(g, 5);
    lemma_fundamental_div_mod(h, 5);
    lemma_fundamental_div_mod(i, 5);
    lemma_fundamental_div_mod(j, 5);
    let qs = s / 5;
    let qt = t / 5;
    assert(a * (s % 5) + 3 * (b * (t % 5)) - (g + h) == 5 * (0 - a * qs - 3 * (b * qt)) && a * (t
        % 5) + b * (s % 5) - (i + j) == 5 * (0 - a * qt - b * qs)) by (nonlinear_arith)
        requires
            s % 5 == s - 5 * qs,
            t % 5 == t - 5 * qt,
            s == c + e,
            t == d + f,
            g == a * c + 3 * (b * d),
            h == a * e + 3 * (b * f),
            i == a * d + b * c,
            j == a * f + b * e,
    ;
    lemma_cong5(a * (s % 5) + 3 * (b * (t % 5)), g + h, 0 - a * qs - 3 * (b * qt));
    lemma_cong5(a * (t % 5) + b * (s % 5), i + j, 0 - a * qt - b * qs);
    lemma_cong5(g % 5 + h % 5, g + h, 0 - g / 5 - h / 5);
    lemma_cong5(i % 5 + j % 5, i + j, 0 - i / 5 - j / 5);
}

/// One coordinate of a difference vanishes modulo 5 exactly when the two
/// inputs agree there.
proof fn lemma_submod_zero_iff(a: int, c: int)
    requires
        0 <= a < 5,
        0 <= c < 5,
    ensures
        ((a + 5 - c) % 5 == 0) <==> (a == c),
{
    if a > c {
        lemma_mod_add_multiples_vanish(a - c, 5);
        lemma_small_mod((a - c) as nat, 5);
    } else if a < c {
        lemma_small_mod((a + 5 - c) as nat, 5);
    }
}

/// The difference of two distinct elements is nonzero.
pub proof fn lemma_sub_nonzero(s: F5x2, t: F5x2)
    requires
        s.valid(),
        t.valid(),
        s != t,
    ensures
        spec_sub(s, t) != spec_zero(),
{
    lemma_submod_zero_iff(s.a as int, t.a as int);
    lemma_submod_zero_iff(s.b as int, t.b as int);
}

/// One coordinate doubled vanishes modulo 5 exactly when it is 0.
proof fn lemma_doublemod_zero_iff(c: int)
    requires
        0 <= c < 5,
    ensures
        ((2 * c) % 5 == 0) <==> (c == 0),
{
    if c != 0 {
        if 2 * c < 5 {
            lemma_small_mod((2 * c) as nat, 5);
        } else {
            lemma_mod_add_multiples_vanish(2 * c - 5, 5);
            lemma_small_mod((2 * c - 5) as nat, 5);
        }
    }
}

/// Twice a nonzero element is nonzero: the doubling denominator of the
/// curve group law only vanishes on a point whose y-coordinate is zero.
pub proof fn lemma_double_nonzero(y: F5x2)
    requires
        y.valid(),
        y != spec_zero(),
    ensures
        spec_add(y, y) != spec_zero(),
{
    lemma_doublemod_zero_iff(y.a as int);
    lemma_doublemod_zero_iff(y.b as int);
}

/// Every arithmetic result has both coordinates reduced modulo 5.
pub proof fn lemma_ops_valid(x: F5x2, y: F5x2)
    ensures
        spec_add(x, y).valid(),
        spec_sub(x, y).valid(),
        spec_mul(x, y).valid(),
        spec_neg(x).valid(),
        spec_inverse(x).valid(),
{
    lemma_mod_bound(x.a + y.a, 5);
    lemma_mod_bound(x.b + y.b, 5);
    lemma_mod_bound(x.a + 5 - y.a, 5);
    lemma_mod_bound(x.b + 5 - y.b, 5);
    lemma_mod_bound(x.a * y.a + 3 * (x.b * y.b), 5);
    lemma_mod_bound(x.a * y.b + x.b * y.a, 5);
    lemma_mod_bound(0 + 5 - x.a, 5);
    lemma_mod_bound(0 + 5 - x.b, 5);
    let u = spec_mod_inverse5(spec_norm(x));
    lemma_mod_bound(x.a * u, 5);
    lemma_mod_bound(x.b * u, 5);
    lemma_mod_bound(5 - (x.b * u) % 5, 5);
}

/// Adding an element's negation gives the additive identity.
pub proof fn lemma_add_neg(s: F5x2)
    requires
        s.valid(),
    ensures
        spec_add(s, spec_neg(s)) == spec_zero(),
{
    if s.a != 0 {
        lemma_small_mod((5 - s.a) as nat, 5);
    }
    if s.b != 0 {
        lemma_small_mod((5 - s.b) as nat, 5);
    }
}

/// The additive inverse is unique: two elements that both bring x back to
/// zero under addition are equal.
pub proof fn lemma_add_inverse_unique(x: F5x2, v: F5x2, w: F5x2)
    requires
        spec_add(x, v) == spec_zero(),
        spec_add(x, w) == spec_zero(),
        v.valid(),
        w.valid(),
    ensures
        v == w,
{
    lemma_add_zero(v);
    lemma_add_assoc(v, x, w);
    lemma_add_comm(v, x);
    lemma_add_comm(spec_zero(), w);
    lemma_add_zero(w);
}

/// Negation is its own inverse.
pub proof fn lemma_neg_involution(y: F5x2)
    requires
        y.valid(),
    ensures
        spec_neg(spec_neg(y)) == y,
{
    lemma_ops_valid(y, y);
    lemma_add_neg(y);
    lemma_add_neg(spec_neg(y));
    lemma_add_comm(y, spec_neg(y));
    lemma_add_inverse_unique(spec_neg(y), spec_neg(spec_neg(y)), y);
}

/// The only element equal to its own negation is zero: in characteristic 5
/// no other element is its own additive inverse.
pub proof fn lemma_neg_fixed_point(y: F5x2)
    requires
        y.valid(),
    ensures
        (spec_neg(y) == y) <==> (y == spec_zero()),
{
    if y == spec_zero() {
        assert(spec_neg(y) == y);
    } else {
        lemma_add_neg(y);
        lemma_double_nonzero(y);
    }
}

/// Swapping the operands of a subtraction negates it.
pub proof fn lemma_sub_antisym(s: F5x2, t: F5x2)
    requires
        s.valid(),
        t.valid(),
    ensures
        spec_sub(s, t) == spec_neg(spec_sub(t, s)),
{
    lemma_ops_valid(s, t);
    lemma_ops_valid(t, s);
    lemma_sub_chain(t, s, t);
    lemma_sub_self(t);
    lemma_add_neg(spec_sub(t, s));
    lemma_add_inverse_unique(spec_sub(t, s), spec_sub(s, t), spec_neg(spec_sub(t, s)));
}

/// Negating one factor negates the product.
pub proof fn lemma_mul_neg_left(s: F5x2, t: F5x2)
    requires
        s.valid(),
        t.valid(),
    ensures
        spec_mul(spec_neg(s), t) == spec_neg(spec_mul(s, t)),
{
    lemma_add_neg(s);
    lemma_mul_comm(spec_add(s, spec_neg(s)), t);
    lemma_mul_distrib(t, s, spec_neg(s));
    lemma_mul_zero(t);
    lemma_mul_comm(t, s);
    lemma_mul_comm(t, spec_neg(s));
    lemma_ops_valid(s, t);
    lemma_ops_valid(spec_mul(s, t), spec_mul(s, t));
    lemma_ops_valid(spec_neg(s), t);
    lemma_add_neg(spec_mul(s, t));
    lemma_add_inverse_unique(
        spec_mul(s, t),
        spec_mul(spec_neg(s), t),
        spec_neg(spec_mul(s, t)),
    );
}

/// Negating the other factor also negates the product.
pub proof fn lemma_mul_neg_right(s: F5x2, t: F5x2)
    requires
        s.valid(),
        t.valid(),
    ensures
        spec_mul(s, spec_neg(t)) == spec_neg(spec_mul(s, t)),
{
    lemma_mul_comm(s, spec_neg(t));
    lemma_mul_neg_left(t, s);
    lemma_mul_comm(t, s);
}

/// Negating both factors leaves the product unchanged.
pub proof fn lemma_mul_neg_neg(s: F5x2, t: F5x2)
    requires
        s.valid(),
        t.valid(),
    ensures
        spec_mul(spec_neg(s), spec_neg(t)) == spec_mul(s, t),
{
    lemma_mul_neg_left(s, spec_neg(t));
    lemma_mul_neg_right(s, t);
    lemma_neg_involution(spec_mul(s, t));
}

/// Differences telescope: (x - z) = (x - y) + (y - z).
pub proof fn lemma_sub_chain(x: F5x2, y: F5x2, z: F5x2)
    ensures
        spec_sub(x, z) == spec_add(spec_sub(x, y), spec_sub(y, z)),
{
    let a = x.a as int;
    let c = y.a as int;
    let e = z.a as int;
    let b = x.b as int;
    let d = y.b as int;
    let f = z.b as int;
    lemma_fundamental_div_mod(a + 5 - c, 5);
    lemma_fundamental_div_mod(c + 5 - e, 5);
    lemma_fundamental_div_mod(b + 5 - d, 5);
    lemma_fundamental_div_mod(d + 5 - f, 5);
    lemma_cong5(
        (a + 5 - c) % 5 + (c + 5 - e) % 5,
        a + 5 - e,
        1 - (a + 5 - c) / 5 - (c + 5 - e) / 5,
    );
    lemma_cong5(
        (b + 5 - d) % 5 + (d + 5 - f) % 5,
        b + 5 - f,
        1 - (b + 5 - d) / 5 - (d + 5 - f) / 5,
    );
}

/// Two subtractions from the same element may be done in either order.
pub proof fn lemma_sub_sub_swap(w: F5x2, s: F5x2, t: F5x2)
    ensures
        spec_sub(spec_sub(w, s), t) == spec_sub(spec_sub(w, t), s),
{
    let a = w.a as int;
    let c = s.a as int;
    let e = t.a as int;
    let b = w.b as int;
    let d = s.b as int;
    let f = t.b as int;
    lemma_fundamental_div_mod(a + 5 - c, 5);
    lemma_fundamental_div_mod(a + 5 - e, 5);
    lemma_fundamental_div_mod(b + 5 - d, 5);
    lemma_fundamental_div_mod(b + 5 - f, 5);
    lemma_cong5(
        (a + 5 - c) % 5 + 5 - e,
        (a + 5 - e) % 5 + 5 - c,
        (a + 5 - e) / 5 - (a + 5 - c) / 5,
    );
    lemma_cong5(
        (b + 5 - d) % 5 + 5 - f,
        (b + 5 - f) % 5 + 5 - d,
        (b + 5 - f) / 5 - (b + 5 - d) / 5,
    );
}

/// Adding a difference and then subtracting the minuend cancels:
/// ((p - q) + t) - p = t - q.
pub proof fn lemma_sub_add_cancel(p: F5x2, q: F5x2, t: F5x2)
    ensures
        spec_sub(spec_add(spec_sub(p, q), t), p) == spec_sub(t, q),
{
    let a = p.a as int;
    let c = q.a as int;
    let e = t.a as int;
    let b = p.b as int;
    let d = q.b as int;
    let f = t.b as int;
    lemma_fundamental_div_mod(a + 5 - c, 5);
    lemma_fundamental_div_mod((a + 5 - c) % 5 + e, 5);
    lemma_fundamental_div_mod(b + 5 - d, 5);
    lemma_fundamental_div_mod((b + 5 - d) % 5 + f, 5);
    lemma_cong5(
        ((a + 5 - c) % 5 + e) % 5 + 5 - a,
        e + 5 - c,
        1 - (a + 5 - c) / 5 - ((a + 5 - c) % 5 + e) / 5,
    );
    lemma_cong5(
        ((b + 5 - d) % 5 + f) % 5 + 5 - b,
        f + 5 - d,
        1 - (b + 5 - d) / 5 - ((b + 5 - d) % 5 + f) / 5,
    );
}

} // verus!
