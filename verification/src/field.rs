//! Elements of GF(5^2) and their arithmetic.
//!
//! An element is a pair (a, b) standing for a + b*t, with a and b reduced
//! modulo 5 and t satisfying t^2 = 3 (mod 5) (reduction polynomial t^2 + 2).

use vstd::prelude::*;
use vstd::string::StringExecFns;

verus! {

/// One element a + b*t of GF(5^2). Every constructor and every arithmetic
/// result keeps both coordinates already reduced modulo 5.
#[derive(Clone, Copy, Debug, PartialEq, Eq, Structural)]
pub struct F5x2 {
    /// Coefficient of 1.
    pub a: u8,
    /// Coefficient of t.
    pub b: u8,
}

/// The one failure of field arithmetic: asking for the multiplicative
/// inverse of the additive identity (0, 0), whose norm reduces to 0.
#[derive(Clone, Copy, Debug, PartialEq, Eq, Structural)]
pub enum FieldError {
    NonInvertibleElement,
}

/// The additive identity 0.
pub open spec fn spec_zero() -> F5x2 {
    F5x2 { a: 0, b: 0 }
}

/// The multiplicative identity 1.
pub open spec fn spec_one() -> F5x2 {
    F5x2 { a: 1, b: 0 }
}

/// The scalar 3, used by the doubling numerator of the curve group law.
pub open spec fn spec_three() -> F5x2 {
    F5x2 { a: 3, b: 0 }
}

/// Componentwise sum modulo 5.
pub open spec fn spec_add(x: F5x2, y: F5x2) -> F5x2 {
    F5x2 { a: ((x.a + y.a) % 5) as u8, b: ((x.b + y.b) % 5) as u8 }
}

/// Componentwise difference modulo 5, computed as (x + 5 - y) % 5 per
/// coordinate so that no intermediate value is negative.
pub open spec fn spec_sub(x: F5x2, y: F5x2) -> F5x2 {
    F5x2 { a: ((x.a + 5 - y.a) % 5) as u8, b: ((x.b + 5 - y.b) % 5) as u8 }
}

/// The additive inverse.
pub open spec fn spec_neg(x: F5x2) -> F5x2 {
    spec_sub(spec_zero(), x)
}

/// Product (a + b*t)(c + d*t) reduced with t^2 = 3 (mod 5):
/// (ac + 3bd) + (ad + bc)*t, each coefficient taken modulo 5.
pub open spec fn spec_mul(x: F5x2, y: F5x2) -> F5x2 {
    F5x2 {
        a: ((x.a * y.a + 3 * (x.b * y.b)) % 5) as u8,
        b: ((x.a * y.b + x.b * y.a) % 5) as u8,
    }
}

/// The norm a^2 - 3*b^2 of a + b*t, reduced to [0, 5); it is written here
/// as a^2 + 2*b^2, which is congruent modulo 5 and never negative.
pub open spec fn spec_norm(x: F5x2) -> int {
    (x.a * x.a + 2 * (x.b * x.b)) % 5
}

/// The multiplicative inverse of a residue modulo 5: the unique i in
/// {1, 2, 3, 4} with n * i = 1 (mod 5), and 0 for the non-invertible 0.
pub open spec fn spec_mod_inverse5(n: int) -> int {
    if n == 1 {
        1
    } else if n == 2 {
        3
    } else if n == 3 {
        2
    } else if n == 4 {
        4
    } else {
        0
    }
}

/// The conjugate-norm formula (a + b*t)^-1 = (a - b*t) / (a^2 - 3*b^2):
/// both coordinates of the conjugate are scaled by the inverse of the norm.
/// For the non-invertible (0, 0) this yields (0, 0), which no contract uses.
pub open spec fn spec_inverse(x: F5x2) -> F5x2 {
    let u = spec_mod_inverse5(spec_norm(x));
    F5x2 { a: ((x.a * u) % 5) as u8, b: ((5 - (x.b * u) % 5) % 5) as u8 }
}

/// Division as multiplication by the inverse of the divisor.
pub open spec fn spec_div(x: F5x2, y: F5x2) -> F5x2 {
    spec_mul(x, spec_inverse(y))
}

/// The decimal digit character of a coordinate value.
pub open spec fn spec_digit(n: int) -> char {
    if n == 0 {
        '0'
    } else if n == 1 {
        '1'
    } else if n == 2 {
        '2'
    } else if n == 3 {
        '3'
    } else {
        '4'
    }
}

impl F5x2 {
    /// Both coordinates reduced modulo 5.
    pub open spec fn valid(self) -> bool {
        self.a < 5 && self.b < 5
    }

    /// The textual rendering: "0" for the zero element, "a" when only the
    /// constant coordinate is set, "bt" when only the t-coordinate is set,
    /// and "a + bt" when both are.
    pub open spec fn spec_text(self) -> Seq<char> {
        if self.a == 0 && self.b == 0 {
            seq!['0']
        } else if self.b == 0 {
            seq![spec_digit(self.a as int)]
        } else if self.a == 0 {
            seq![spec_digit(self.b as int), 't']
        } else {
            seq![spec_digit(self.a as int), ' ', '+', ' ', spec_digit(self.b as int), 't']
        }
    }

    /// Constructs an element, folding any coordinates into [0, 4].
    pub fn new(a: u8, b: u8) -> (r: F5x2)
        ensures
            r.a == a % 5,
            r.b == b % 5,
            r.valid(),
    {
        F5x2 { a: a % 5, b: b % 5 }
    }

    /// Componentwise addition modulo 5.
    pub fn add(self, other: F5x2) -> (r: F5x2)
        requires
            self.valid(),
            other.valid(),
        ensures
            r == spec_add(self, other),
            r.valid(),
    {
        F5x2 { a: (self.a + other.a) % 5, b: (self.b + other.b) % 5 }
    }

    /// Componentwise subtraction modulo 5, via (x + 5 - y) % 5 to avoid
    /// negative intermediates.
    pub fn sub(self, other: F5x2) -> (r: F5x2)
        requires
            self.valid(),
            other.valid(),
        ensures
            r == spec_sub(self, other),
            r.valid(),
    {
        F5x2 { a: (self.a + 5 - other.a) % 5, b: (self.b + 5 - other.b) % 5 }
    }

    /// Polynomial multiplication followed by the reduction t^2 = 3 (mod 5):
    /// for x = (a, b) and y = (c, d) the product is
    /// ((ac + 3bd) mod 5, (ad + bc) mod 5).
    pub fn mul(self, other: F5x2) -> (r: F5x2)
        requires
            self.valid(),
            other.valid(),
        ensures
            r == spec_mul(self, other),
            r.valid(),
    {
        let a = self.a as u16;
        let b = self.b as u16;
        let c = other.a as u16;
        let d = other.b as u16;
        proof {
            assert(a * c <= 16 && b * d <= 16 && a * d <= 16 && b * c <= 16)
                by (nonlinear_arith)
                requires
                    a <= 4,
                    b <= 4,
                    c <= 4,
                    d <= 4,
            ;
        }
        let new_a = (a * c + 3 * (b * d)) % 5;
        let new_b = (a * d + b * c) % 5;
        F5x2 { a: new_a as u8, b: new_b as u8 }
    }

    /// Brute-force search for the multiplicative inverse of a residue
    /// modulo p. The search is O(p) and appropriate only for a tiny prime
    /// modulus such as this field's 5; it answers None when no inverse
    /// exists instead of falling back to a wrong value.
    pub fn mod_inverse(x: u8, p: u8) -> (r: Option<u8>)
        requires
            p > 0,
        ensures
            match r {
                Some(i) => 1 <= i < p && (x * i) % (p as int) == 1,
                None => forall|j: int| 1 <= j < p ==> #[trigger] ((x * j) % (p as int)) != 1,
            },
    {
        let mut i: u8 = 1;
        while i < p
            invariant
                1 <= i <= p,
                forall|j: int| 1 <= j < i ==> #[trigger] ((x * j) % (p as int)) != 1,
            decreases p - i,
        {
            proof {
                assert(x * i <= 255 * 255) by (nonlinear_arith)
                    requires
                        x <= 255,
                        i <= 255,
                ;
            }
            if (x as u16) * (i as u16) % (p as u16) == 1 {
                return Some(i);
            }
            i = i + 1;
        }
        None
    }

    /// The multiplicative inverse, by the conjugate-norm identity
    /// (a + bt)^-1 = (a - bt) / (a^2 - 3b^2). The norm is reduced to [0, 5)
    /// and inverted modulo 5 by bounded search; a norm of 0 means the
    /// operand is the non-invertible (0, 0) and is reported as an error.
    pub fn inverse(self) -> (r: Result<F5x2, FieldError>)
        requires
            self.valid(),
        ensures
            self == spec_zero() ==> r == Err::<F5x2, FieldError>(FieldError::NonInvertibleElement),
            self != spec_zero() ==> r == Ok::<F5x2, FieldError>(spec_inverse(self)),
            self != spec_zero() ==> spec_inverse(self).valid() && spec_mul(
                self,
                spec_inverse(self),
            ) == spec_one(),
    {
        let a = self.a as u16;
        let b = self.b as u16;
        proof {
            assert(a * a <= 16 && b * b <= 16) by (nonlinear_arith)
                requires
                    a <= 4,
                    b <= 4,
            ;
        }
        let norm = (a * a + 2 * (b * b)) % 5;
        match Self::mod_inverse(norm as u8, 5) {
            None => {
                proof {
                    if self != spec_zero() {
                        crate::field_laws::lemma_norm_nonzero(self);
                        crate::field_laws::lemma_mod_inverse5_works(spec_norm(self));
                    }
                }
                Err(FieldError::NonInvertibleElement)
            },
            Some(u) => {
                proof {
                    if self == spec_zero() {
                        assert(a * a == 0 && b * b == 0) by (nonlinear_arith)
                            requires
                                a == 0,
                                b == 0,
                        ;
                        assert((norm as u8) * u == 0) by (nonlinear_arith)
                            requires
                                norm == 0,
                        ;
                    }
                    assert(self.a * u <= 16 && self.b * u <= 16) by (nonlinear_arith)
                        requires
                            self.a < 5,
                            self.b < 5,
                            u < 5,
                    ;
                }
                let na = (self.a as u16) * (u as u16) % 5;
                let nb = (5 - (self.b as u16) * (u as u16) % 5) % 5;
                let w = F5x2 { a: na as u8, b: nb as u8 };
                proof {
                    crate::field_laws::lemma_conjugate_inverse(self, w, u as int);
                    crate::field_laws::lemma_mul_inverse(self);
                    crate::field_laws::lemma_inverse_unique(self, w, spec_inverse(self));
                }
                Ok(w)
            },
        }
    }

    /// The one-character string for a coordinate value.
    fn digit_str(d: u8) -> (s: &'static str)
        requires
            d < 5,
        ensures
            s@ == seq![spec_digit(d as int)],
    {
        proof {
            reveal_strlit("0");
            reveal_strlit("1");
            reveal_strlit("2");
            reveal_strlit("3");
            reveal_strlit("4");
            assert("0"@ =~= seq!['0']);
            assert("1"@ =~= seq!['1']);
            assert("2"@ =~= seq!['2']);
            assert("3"@ =~= seq!['3']);
            assert("4"@ =~= seq!['4']);
        }
        match d {
            0 => "0",
            1 => "1",
            2 => "2",
            3 => "3",
            _ => "4",
        }
    }

    /// The display form of the element: "0", "a", "bt" or "a + bt"
    /// depending on which coordinates are nonzero. Only for display;
    /// nothing parses it back.
    pub fn to_text(&self) -> (r: String)
        requires
            self.valid(),
        ensures
            r@ == self.spec_text(),
    {
        if self.a == 0 && self.b == 0 {
            String::from_str(Self::digit_str(0))
        } else if self.b == 0 {
            String::from_str(Self::digit_str(self.a))
        } else if self.a == 0 {
            let r = String::from_str(Self::digit_str(self.b)).concat("t");
            proof {
                reveal_strlit("t");
                assert(r@ =~= self.spec_text());
            }
            r
        } else {
            let r = String::from_str(Self::digit_str(self.a)).concat(" + ").concat(
                Self::digit_str(self.b),
            ).concat("t");
            proof {
                reveal_strlit(" + ");
                reveal_strlit("t");
                assert(r@ =~= self.spec_text());
            }
            r
        }
    }

    /// Division as multiplication by the divisor's inverse; dividing by
    /// (0, 0) reports the divisor as non-invertible.
    pub fn div(self, other: F5x2) -> (r: Result<F5x2, FieldError>)
        requires
            self.valid(),
            other.valid(),
        ensures
            other == spec_zero() ==> r == Err::<F5x2, FieldError>(FieldError::NonInvertibleElement),
            other != spec_zero() ==> r == Ok::<F5x2, FieldError>(spec_div(self, other)),
            other != spec_zero() ==> spec_div(self, other).valid(),
    {
        match other.inverse() {
            Err(e) => Err(e),
            Ok(inv) => Ok(self.mul(inv)),
        }
    }
}

} // verus!
