use graphics::back_end::{BackEnd, BackEndCaps, DrawCall, DrawError, ImageSize};
use graphics::context::Context;
use graphics::scalar::Scalar;
use graphics::types::SourceRectangle;
use graphics::triangulation::{rect_tri_list_uv, rect_tri_list_xy};
use graphics::matrix::Matrix2d;
use graphics::types::Rect;

struct TestImage {
    w: u32,
    h: u32,
}

impl ImageSize for TestImage {
    fn get_size(&self) -> (u32, u32) {
        (self.w, self.h)
    }
}

struct RecordingBackEnd {
    single_texture: bool,
    tri_list: bool,
    texture_alpha: bool,
    state_calls: Vec<&'static str>,
}

impl BackEnd<TestImage> for RecordingBackEnd {
    fn supports_single_texture(&self) -> bool {
        self.single_texture
    }
    fn supports_tri_list_xy_f32_rgba_f32_uv_f32(&self) -> bool {
        self.tri_list
    }
    fn has_texture_alpha(&self, _texture: &TestImage) -> bool {
        self.texture_alpha
    }
    fn enable_alpha_blend(&mut self) {
        self.state_calls.push("enable_alpha_blend");
    }
    fn disable_alpha_blend(&mut self) {
        self.state_calls.push("disable_alpha_blend");
    }
    fn enable_single_texture(&mut self, _texture: &TestImage) {
        self.state_calls.push("enable_single_texture");
    }
    fn disable_single_texture(&mut self) {
        self.state_calls.push("disable_single_texture");
    }
    fn tri_list_xy_f32_rgba_f32_uv_f32(
        &mut self,
        xy: &Vec<Scalar>,
        rgba: &Vec<Scalar>,
        uv: &Vec<Scalar>,
    ) {
        assert_eq!(xy.len(), 12);
        assert_eq!(rgba.len(), 24);
        assert_eq!(uv.len(), 12);
        self.state_calls.push("tri_list");
    }
}

fn image_context(alpha: Scalar) -> graphics::image_color_context::ImageColorContext<TestImage> {
    Context::new().image(TestImage { w: 4, h: 4 }).rgba(
        Scalar::from_int(1),
        Scalar::from_int(1),
        Scalar::from_int(1),
        alpha,
    )
}

#[test]
fn image_defaults_source_rect_to_image_size() {
    let c = Context::new();
    let d = c.image(TestImage { w: 7, h: 5 });
    assert_eq!(d.source_rect, SourceRectangle { x: 0, y: 0, w: 7, h: 5 });

    let e = c.image_with_size(TestImage { w: 7, h: 5 }, 16, 9);
    assert_eq!(e.source_rect, SourceRectangle { x: 0, y: 0, w: 16, h: 9 });
}

#[test]
fn transparent_draw_issues_no_backend_calls() {
    let ctx = image_context(Scalar::from_int(0));
    let caps = BackEndCaps {
        supports_single_texture: true,
        supports_tri_list: true,
        has_texture_alpha: false,
    };
    let calls = ctx.draw_calls(caps, 4, 4).unwrap();
    assert_eq!(calls.len(), 0);

    let mut backend = RecordingBackEnd {
        single_texture: true,
        tri_list: true,
        texture_alpha: false,
        state_calls: Vec::new(),
    };
    assert!(ctx.draw(&mut backend).is_ok());
    assert_eq!(backend.state_calls.len(), 0);
}

#[test]
fn capability_mismatch_is_fatal() {
    let ctx = image_context(Scalar::from_int(1));
    let caps = BackEndCaps {
        supports_single_texture: false,
        supports_tri_list: true,
        has_texture_alpha: false,
    };
    assert!(matches!(
        ctx.draw_calls(caps, 4, 4),
        Err(DrawError::UnsupportedBackEnd)
    ));

    let mut backend = RecordingBackEnd {
        single_texture: false,
        tri_list: true,
        texture_alpha: false,
        state_calls: Vec::new(),
    };
    assert_eq!(ctx.draw(&mut backend), Err(DrawError::UnsupportedBackEnd));
    assert_eq!(backend.state_calls.len(), 0);
}

#[test]
fn opaque_draw_skips_alpha_blending() {
    let ctx = image_context(Scalar::from_int(1));
    let caps = BackEndCaps {
        supports_single_texture: true,
        supports_tri_list: true,
        has_texture_alpha: false,
    };
    let calls = ctx.draw_calls(caps, 4, 4).unwrap();
    assert_eq!(calls.len(), 3);
    assert!(matches!(calls[0], DrawCall::EnableSingleTexture));
    assert!(matches!(calls[1], DrawCall::TriList { .. }));
    assert!(matches!(calls[2], DrawCall::DisableSingleTexture));
}

#[test]
fn translucent_draw_restores_backend_state() {
    let ctx = image_context(Scalar::new(1, 2));
    let caps = BackEndCaps {
        supports_single_texture: true,
        supports_tri_list: true,
        has_texture_alpha: false,
    };
    let calls = ctx.draw_calls(caps, 4, 4).unwrap();
    assert_eq!(calls.len(), 5);
    assert!(matches!(calls[0], DrawCall::EnableAlphaBlend));
    assert!(matches!(calls[1], DrawCall::EnableSingleTexture));
    assert!(matches!(calls[2], DrawCall::TriList { .. }));
    assert!(matches!(calls[3], DrawCall::DisableSingleTexture));
    assert!(matches!(calls[4], DrawCall::DisableAlphaBlend));

    let mut backend = RecordingBackEnd {
        single_texture: true,
        tri_list: true,
        texture_alpha: false,
        state_calls: Vec::new(),
    };
    assert!(ctx.draw(&mut backend).is_ok());
    assert_eq!(
        backend.state_calls,
        vec![
            "enable_alpha_blend",
            "enable_single_texture",
            "tri_list",
            "disable_single_texture",
            "disable_alpha_blend",
        ],
    );
}

#[test]
fn texture_alpha_forces_blending() {
    let ctx = image_context(Scalar::from_int(1));
    let caps = BackEndCaps {
        supports_single_texture: true,
        supports_tri_list: true,
        has_texture_alpha: true,
    };
    let calls = ctx.draw_calls(caps, 4, 4).unwrap();
    assert_eq!(calls.len(), 5);
}

#[test]
fn rect_triangulation_is_exact() {
    let m = Matrix2d::identity();
    let r = Rect {
        x: Scalar::from_int(0),
        y: Scalar::from_int(0),
        w: Scalar::from_int(1),
        h: Scalar::from_int(2),
    };
    let xy = rect_tri_list_xy(&m, &r);
    assert_eq!(xy.len(), 12);
    // First triangle: (0,0), (1,0), (0,2).
    assert!(xy[0].eqv(Scalar::from_int(0)));
    assert!(xy[1].eqv(Scalar::from_int(0)));
    assert!(xy[2].eqv(Scalar::from_int(1)));
    assert!(xy[3].eqv(Scalar::from_int(0)));
    assert!(xy[4].eqv(Scalar::from_int(0)));
    assert!(xy[5].eqv(Scalar::from_int(2)));
    // Second triangle: (1,0), (1,2), (0,2).
    assert!(xy[8].eqv(Scalar::from_int(1)));
    assert!(xy[9].eqv(Scalar::from_int(2)));
}

#[test]
fn uv_coordinates_are_normalized() {
    let s = SourceRectangle { x: 1, y: 1, w: 2, h: 2 };
    let uv = rect_tri_list_uv(4, 4, &s);
    assert_eq!(uv.len(), 12);
    assert_eq!(uv[0], Scalar::new(1, 4));
    assert_eq!(uv[1], Scalar::new(1, 4));
    assert_eq!(uv[2], Scalar::new(3, 4));
    assert_eq!(uv[8], Scalar::new(3, 4));
    assert_eq!(uv[9], Scalar::new(3, 4));
}

#[test]
fn source_rectangle_change_keeps_the_rest() {
    let ctx = image_context(Scalar::from_int(1));
    let before_transform = ctx.transform;
    let sub = SourceRectangle { x: 1, y: 1, w: 2, h: 2 };
    let d = ctx.source_rectangle(sub);
    assert_eq!(d.source_rect, sub);
    assert_eq!(d.transform, before_transform);
}
