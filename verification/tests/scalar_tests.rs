use graphics::scalar::Scalar;

#[test]
fn new_normalizes_the_sign() {
    let s = Scalar::new(3, -4);
    assert_eq!(s, Scalar::new(-3, 4));
    assert!(s.eqv(Scalar::new(-3, 4)));
    assert!(s.den > 0);
}

#[test]
fn exact_arithmetic() {
    let half = Scalar::new(1, 2);
    let third = Scalar::new(1, 3);
    assert!(half.add(third).eqv(Scalar::new(5, 6)));
    assert!(half.sub(third).eqv(Scalar::new(1, 6)));
    assert!(half.mul(third).eqv(Scalar::new(1, 6)));
    assert!(half.div(third).eqv(Scalar::new(3, 2)));
    assert!(half.neg().eqv(Scalar::new(-1, 2)));
    assert!(Scalar::zero().is_zero());
    assert!(!Scalar::one().is_zero());
}

#[test]
fn equivalence_ignores_representation() {
    assert!(Scalar::new(2, 4).eqv(Scalar::new(1, 2)));
    assert!(!Scalar::new(2, 4).eqv(Scalar::new(1, 3)));
}
