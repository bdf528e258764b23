use raytracer::linalg::tuple4::{point, vector, Tuple4, ONE_BITS, SIGN_BIT, ZERO_BITS};
use std::ops::Neg;

fn tuple(x: f64, y: f64, z: f64, w: f64) -> Tuple4 {
    Tuple4(x.to_bits(), y.to_bits(), z.to_bits(), w.to_bits())
}

fn components(t: Tuple4) -> (f64, f64, f64, f64) {
    (
        f64::from_bits(t.0),
        f64::from_bits(t.1),
        f64::from_bits(t.2),
        f64::from_bits(t.3),
    )
}

#[test]
fn tuple_with_w_one_is_a_point() {
    let a = tuple(4.3, -4.2, 3.1, 1.0);
    assert_eq!(components(a), (4.3, -4.2, 3.1, 1.0));
    assert!(a.is_point());
    assert!(!a.is_vector());
}

#[test]
fn tuple_with_w_zero_is_a_vector() {
    let a = tuple(4.3, -4.2, 3.1, 0.0);
    assert_eq!(components(a), (4.3, -4.2, 3.1, 0.0));
    assert!(!a.is_point());
    assert!(a.is_vector());
}

#[test]
fn point_creates_tuple_with_w_one() {
    let p = point(4.0f64.to_bits(), (-4.0f64).to_bits(), 3.0f64.to_bits());
    assert!(p == tuple(4.0, -4.0, 3.0, 1.0));
    assert_eq!(p.3, ONE_BITS);
    assert!(p.is_point());
    assert!(!p.is_vector());
}

#[test]
fn vector_creates_tuple_with_w_zero() {
    let v = vector(4.0f64.to_bits(), (-4.0f64).to_bits(), 3.0f64.to_bits());
    assert!(v == tuple(4.0, -4.0, 3.0, 0.0));
    assert_eq!(v.3, ZERO_BITS);
    assert!(v.is_vector());
    assert!(!v.is_point());
}

#[test]
fn negating_a_tuple() {
    let a = tuple(1.0, -2.0, 3.0, -4.0);
    assert!(-a == tuple(-1.0, 2.0, -3.0, 4.0));
    assert!(a.neg() == tuple(-1.0, 2.0, -3.0, 4.0));
    assert_eq!(components(-a), (-1.0, 2.0, -3.0, 4.0));
}

#[test]
fn negating_a_vector_keeps_it_a_vector() {
    let v = vector(1.0f64.to_bits(), 2.0f64.to_bits(), 3.0f64.to_bits());
    let n = -v;
    assert!(n.is_vector());
    assert_eq!(n.3, SIGN_BIT);
}

#[test]
fn negating_a_point_gives_neither() {
    let p = point(1.0f64.to_bits(), 2.0f64.to_bits(), 3.0f64.to_bits());
    let n = -p;
    assert!(!n.is_point());
    assert!(!n.is_vector());
    assert_eq!(f64::from_bits(n.3), -1.0);
}

#[test]
fn double_negation_gives_back_the_tuple() {
    let t = tuple(0.5, -0.0, f64::INFINITY, 7.25);
    assert!(-(-t) == t);
    let n = -(-t);
    assert_eq!((n.0, n.1, n.2, n.3), (t.0, t.1, t.2, t.3));
}

#[test]
fn zeros_of_either_sign_are_equal() {
    assert!(tuple(0.0, -0.0, 1.0, 0.0) == tuple(-0.0, 0.0, 1.0, -0.0));
    assert!(tuple(0.0, 0.0, 0.0, -0.0).is_vector());
}

#[test]
fn nan_component_is_never_equal() {
    let t = tuple(f64::NAN, 1.0, 2.0, 1.0);
    assert!(!(t == t));
    assert!(t != t);
    assert!(t.is_point());
}

#[test]
fn infinities_compare_exactly() {
    assert!(tuple(f64::INFINITY, 0.0, 0.0, 0.0) == tuple(f64::INFINITY, 0.0, 0.0, 0.0));
    assert!(tuple(f64::INFINITY, 0.0, 0.0, 0.0) != tuple(f64::NEG_INFINITY, 0.0, 0.0, 0.0));
    assert!(tuple(1.0, 2.0, 3.0, 4.0) != tuple(1.0, 2.0, 3.5, 4.0));
}

#[test]
fn default_tuple_is_all_zeros_and_a_vector() {
    let d = Tuple4::default();
    assert_eq!(components(d), (0.0, 0.0, 0.0, 0.0));
    assert!(d.is_vector());
    assert!(!d.is_point());
}

#[test]
fn w_other_than_zero_or_one_is_neither() {
    let t = tuple(1.0, 2.0, 3.0, 2.0);
    assert!(!t.is_point());
    assert!(!t.is_vector());
    assert!(!tuple(1.0, 2.0, 3.0, f64::NAN).is_vector());
}
