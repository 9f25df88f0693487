use graphics::context::Context;
use graphics::matrix::Matrix2d;
use graphics::scalar::Scalar;
use graphics::types::Color;

#[test]
fn test_context() {
    let c = Context::new();
    {
        let d = c.trans(Scalar::from_int(20), Scalar::from_int(40));
        let d = d.trans(Scalar::from_int(10), Scalar::from_int(10));
        let transform = d.get_transform();
        assert_eq!(transform.get(2), Scalar::from_int(30));
        assert_eq!(transform.get(5), Scalar::from_int(50));
    }

    let transform = c.get_transform();
    assert_eq!(transform.get(2), Scalar::from_int(0));
    assert_eq!(transform.get(5), Scalar::from_int(0));

    let c = c.rot_deg(90);
    let transform = c.get_transform();
    assert!(transform.get(0).eqv(Scalar::from_int(0)));
    assert!(transform.get(1).eqv(Scalar::from_int(-1)));
}

#[test]
fn test_scale() {
    let c = Context::new();
    let c = c.scale(Scalar::from_int(2), Scalar::from_int(3));
    let transform = c.get_transform();
    assert!(transform.get(0).eqv(Scalar::from_int(2)));
    assert!(transform.get(4).eqv(Scalar::from_int(3)));
}

#[test]
fn test_rect() {
    let c = Context::new();
    let d = c.rect(
        Scalar::from_int(0),
        Scalar::from_int(0),
        Scalar::from_int(100),
        Scalar::from_int(50),
    );
    assert_eq!(d.rect.w, Scalar::from_int(100));
}

#[test]
fn test_rgba() {
    let c = Context::new();
    let d = c.rgba(
        Scalar::from_int(1),
        Scalar::from_int(0),
        Scalar::from_int(0),
        Scalar::from_int(1),
    );
    assert_eq!(d.color.r, Scalar::from_int(1));
}

#[test]
fn test_ellipse() {
    let c = Context::new();
    let d = c.ellipse(
        Scalar::from_int(0),
        Scalar::from_int(0),
        Scalar::from_int(100),
        Scalar::from_int(100),
    );
    assert_eq!(d.rect.w, Scalar::from_int(100));
}

#[test]
fn rotation_by_quarters_wraps() {
    let m270 = Matrix2d::rotation_deg(270);
    let mneg90 = Matrix2d::rotation_deg(-90);
    assert_eq!(m270, mneg90);
    assert_eq!(Matrix2d::rotation_deg(360), Matrix2d::identity());
}

#[test]
fn abs_maps_pixel_space() {
    let c = Context::abs(Scalar::from_int(640), Scalar::from_int(480));
    let v = c.get_view_transform();
    assert!(v.get(0).eqv(Scalar::new(2, 640)));
    assert!(v.get(4).eqv(Scalar::new(-2, 480)));
    assert!(v.get(2).eqv(Scalar::from_int(-1)));
    assert!(v.get(5).eqv(Scalar::from_int(1)));
    assert_eq!(c.get_transform(), v);
}

#[test]
fn color_change_keeps_transforms() {
    let base = Context::new().trans(Scalar::from_int(7), Scalar::from_int(9));
    let c = base.rgba(
        Scalar::new(1, 2),
        Scalar::new(1, 4),
        Scalar::from_int(1),
        Scalar::from_int(1),
    );
    let before_view = c.view;
    let before_transform = c.transform;
    let d = c.color(Color {
        r: Scalar::from_int(0),
        g: Scalar::from_int(1),
        b: Scalar::from_int(0),
        a: Scalar::from_int(1),
    });
    assert_eq!(c.view, before_view);
    assert_eq!(c.transform, before_transform);
    assert_eq!(d.view, c.view);
    assert_eq!(d.transform, c.transform);
}

#[test]
fn compose_is_associative_on_values() {
    let a = Matrix2d::translated(Scalar::from_int(3), Scalar::from_int(-2));
    let b = Matrix2d::scaled(Scalar::new(1, 2), Scalar::from_int(4));
    let c = Matrix2d::sheared(Scalar::from_int(1), Scalar::new(-3, 5));
    assert_eq!(a.multiply(&b).multiply(&c), a.multiply(&b.multiply(&c)));
}

#[test]
fn flip_then_flip_restores() {
    let c = Context::new().flip_h().flip_h();
    assert_eq!(c.get_transform(), Matrix2d::identity());
    let c = Context::new().flip_v().flip_v();
    assert_eq!(c.get_transform(), Matrix2d::identity());
}
