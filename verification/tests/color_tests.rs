use graphics::context::Context;
use graphics::relative_color::RelativeColor;
use graphics::scalar::Scalar;

#[test]
fn tint_full_returns_original() {
    let c = Context::new().rgba(
        Scalar::new(1, 2),
        Scalar::new(3, 4),
        Scalar::new(1, 8),
        Scalar::new(9, 10),
    );
    let t = c.tint(Scalar::from_int(1));
    assert!(t.color.r.eqv(c.color.r));
    assert!(t.color.g.eqv(c.color.g));
    assert!(t.color.b.eqv(c.color.b));
    assert!(t.color.a.eqv(c.color.a));
}

#[test]
fn shade_full_is_black() {
    let c = Context::new().rgba(
        Scalar::new(1, 2),
        Scalar::new(3, 4),
        Scalar::new(1, 8),
        Scalar::new(9, 10),
    );
    let s = c.shade(Scalar::from_int(1));
    assert!(s.color.r.is_zero());
    assert!(s.color.g.is_zero());
    assert!(s.color.b.is_zero());
    assert!(s.color.a.eqv(Scalar::new(9, 10)));
}

#[test]
fn tint_zero_multiplies_rgb_to_zero() {
    let c = Context::new().rgba(
        Scalar::new(1, 2),
        Scalar::new(1, 2),
        Scalar::new(1, 2),
        Scalar::from_int(1),
    );
    let t = c.tint(Scalar::from_int(0));
    assert!(t.color.r.is_zero());
    assert!(t.color.g.is_zero());
    assert!(t.color.b.is_zero());
    assert!(t.color.a.eqv(Scalar::from_int(1)));
}

#[test]
fn shade_zero_returns_original() {
    let c = Context::new().rgba(
        Scalar::new(1, 2),
        Scalar::new(3, 4),
        Scalar::new(1, 8),
        Scalar::new(9, 10),
    );
    let s = c.shade(Scalar::from_int(0));
    assert!(s.color.r.eqv(c.color.r));
    assert!(s.color.g.eqv(c.color.g));
    assert!(s.color.b.eqv(c.color.b));
    assert!(s.color.a.eqv(c.color.a));
}

#[test]
fn mul_rgba_is_component_wise() {
    let c = Context::new().rgba(
        Scalar::new(1, 2),
        Scalar::new(1, 3),
        Scalar::from_int(1),
        Scalar::from_int(1),
    );
    let m = c.mul_rgba(
        Scalar::new(1, 2),
        Scalar::from_int(3),
        Scalar::new(1, 4),
        Scalar::from_int(1),
    );
    assert!(m.color.r.eqv(Scalar::new(1, 4)));
    assert!(m.color.g.eqv(Scalar::from_int(1)));
    assert!(m.color.b.eqv(Scalar::new(1, 4)));
    assert!(m.color.a.eqv(Scalar::from_int(1)));
}
