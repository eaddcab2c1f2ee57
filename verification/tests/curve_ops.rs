use gf25_curve::F5x2;
use gf25_curve::Point;
use gf25_curve::PointError;
use gf25_curve::point_add;

fn fe(a: u8, b: u8) -> F5x2 {
    F5x2::new(a, b)
}

fn affine(xa: u8, xb: u8, ya: u8, yb: u8) -> Point {
    Point::new(Some(fe(xa, xb)), Some(fe(ya, yb))).expect("both coordinates given")
}

#[test]
fn test_point_new_identity() {
    let p = Point::new(None, None).expect("no coordinates is the identity");
    assert_eq!(p, Point::Identity);
    assert!(p.is_infinity());
}

#[test]
fn test_point_new_affine() {
    let p = affine(1, 2, 4, 4);
    assert!(!p.is_infinity());
    assert_eq!(p, Point::Affine { x: fe(1, 2), y: fe(4, 4) });
}

#[test]
fn test_point_new_half_built_is_error() {
    assert_eq!(Point::new(Some(fe(1, 2)), None), Err(PointError::InvalidPoint));
    assert_eq!(Point::new(None, Some(fe(1, 2))), Err(PointError::InvalidPoint));
}

#[test]
fn test_identity_law() {
    let a = fe(1, 0);
    let p = affine(1, 2, 4, 4);
    assert_eq!(point_add(p, Point::Identity, a), p);
    assert_eq!(point_add(Point::Identity, p, a), p);
    assert_eq!(point_add(Point::Identity, Point::Identity, a), Point::Identity);
}

#[test]
fn test_commutativity_samples() {
    let a = fe(1, 0);
    let samples = [
        (affine(1, 2, 4, 4), affine(3, 0, 2, 1)),
        (affine(0, 1, 1, 3), affine(2, 2, 0, 4)),
        (affine(1, 2, 4, 4), affine(1, 2, 4, 4)),
        (affine(4, 4, 0, 0), affine(2, 1, 3, 3)),
    ];
    for (p, q) in samples {
        assert_eq!(point_add(p, q, a), point_add(q, p, a));
    }
}

#[test]
fn test_inverse_pair_all_coordinates() {
    let a = fe(1, 0);
    let zero = fe(0, 0);
    for xa in 0..5u8 {
        for xb in 0..5u8 {
            for ya in 0..5u8 {
                for yb in 0..5u8 {
                    let x = fe(xa, xb);
                    let y = fe(ya, yb);
                    let p = Point::Affine { x, y };
                    let q = Point::Affine { x, y: zero.sub(y) };
                    assert_eq!(point_add(p, q, a), Point::Identity);
                }
            }
        }
    }
}

#[test]
fn test_doubling_vector() {
    let a = fe(1, 0);
    let p = affine(1, 2, 4, 4);
    assert_eq!(point_add(p, p, a), Point::Affine { x: fe(1, 2), y: fe(1, 1) });
}

#[test]
fn test_doubling_order_two_point_gives_identity() {
    let a = fe(1, 0);
    let p = affine(2, 3, 0, 0);
    assert_eq!(point_add(p, p, a), Point::Identity);
}
