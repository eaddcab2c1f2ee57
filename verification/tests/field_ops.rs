use gf25_curve::F5x2;
use gf25_curve::FieldError;

fn fe(a: u8, b: u8) -> F5x2 {
    F5x2::new(a, b)
}

fn all_elements() -> Vec<F5x2> {
    let mut v: Vec<F5x2> = Vec::new();
    for a in 0..5u8 {
        for b in 0..5u8 {
            v.push(fe(a, b));
        }
    }
    v
}

#[test]
fn test_new_reduces() {
    assert_eq!(F5x2::new(7, 13), fe(2, 3));
    assert_eq!(F5x2::new(255, 250), fe(0, 0));
}

#[test]
fn test_add_commutative_exhaustive() {
    for x in all_elements() {
        for y in all_elements() {
            assert_eq!(x.add(y), y.add(x));
        }
    }
}

#[test]
fn test_add_associative_exhaustive() {
    for x in all_elements() {
        for y in all_elements() {
            for z in all_elements() {
                assert_eq!(x.add(y).add(z), x.add(y.add(z)));
            }
        }
    }
}

#[test]
fn test_mul_commutative_exhaustive() {
    for x in all_elements() {
        for y in all_elements() {
            assert_eq!(x.mul(y), y.mul(x));
        }
    }
}

#[test]
fn test_mul_associative_exhaustive() {
    for x in all_elements() {
        for y in all_elements() {
            for z in all_elements() {
                assert_eq!(x.mul(y).mul(z), x.mul(y.mul(z)));
            }
        }
    }
}

#[test]
fn test_additive_and_multiplicative_identity_exhaustive() {
    for x in all_elements() {
        assert_eq!(x.add(fe(0, 0)), x);
        assert_eq!(x.mul(fe(1, 0)), x);
    }
}

#[test]
fn test_sub_self_and_div_self_exhaustive() {
    for x in all_elements() {
        assert_eq!(x.sub(x), fe(0, 0));
        if x != fe(0, 0) {
            assert_eq!(x.div(x), Ok(fe(1, 0)));
        }
    }
}

#[test]
fn test_mul_inverse_all_nonzero() {
    for x in all_elements() {
        if x != fe(0, 0) {
            let inv = x.inverse().expect("nonzero element must invert");
            assert_eq!(x.mul(inv), fe(1, 0));
        }
    }
}

#[test]
fn test_inverse_of_zero_is_error() {
    assert_eq!(fe(0, 0).inverse(), Err(FieldError::NonInvertibleElement));
}

#[test]
fn test_div_by_zero_is_error() {
    assert_eq!(fe(3, 1).div(fe(0, 0)), Err(FieldError::NonInvertibleElement));
}

#[test]
fn test_mod_inverse_search() {
    assert_eq!(F5x2::mod_inverse(1, 5), Some(1));
    assert_eq!(F5x2::mod_inverse(2, 5), Some(3));
    assert_eq!(F5x2::mod_inverse(3, 5), Some(2));
    assert_eq!(F5x2::mod_inverse(4, 5), Some(4));
    assert_eq!(F5x2::mod_inverse(0, 5), None);
}

#[test]
fn test_concrete_vectors() {
    assert_eq!(fe(1, 2).add(fe(4, 4)), fe(0, 1));
    assert_eq!(fe(1, 2).mul(fe(1, 2)), fe(3, 4));
    assert_eq!(fe(3, 3).inverse(), Ok(fe(4, 1)));
}

#[test]
fn test_text_rendering() {
    assert_eq!(fe(0, 0).to_text(), "0");
    assert_eq!(fe(3, 0).to_text(), "3");
    assert_eq!(fe(0, 2).to_text(), "2t");
    assert_eq!(fe(1, 4).to_text(), "1 + 4t");
}
