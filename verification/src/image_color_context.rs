//! The image-with-color context and its capability-dispatch draw protocol.
//!
//! `draw_calls` is the verified heart of the protocol: from the backend's
//! capability answers and the texture size it plans the exact, ordered
//! sequence of backend calls — or refuses, loudly, when a capability is
//! missing. A fully transparent color short-circuits to an empty plan.
//! `draw` replays the plan against a live backend.

use vstd::prelude::*;

use crate::back_end::{BackEnd, BackEndCaps, DrawCall, DrawError, ImageSize};
use crate::matrix::{Mat, Matrix2d};
use crate::scalar::{rat_eq, rat_one, rat_zero, Rat, Scalar};
use crate::triangulation::{
    color_stream, rect_tri_fits, rect_tri_list_rgba, rect_tri_list_uv, rect_tri_list_xy,
    rect_tri_uv_spec, rect_tri_xy_spec,
};
use crate::types::{Color, Rect, RectV, SourceRectangle};
use crate::variants::ImageRectangleColorContext;

verus! {

/// The source rectangle reinterpreted as the drawing rectangle
/// `[0, 0, w, h]`, as the draw protocol triangulates it.
pub open spec fn src_as_rect(sr: SourceRectangle) -> RectV {
    RectV {
        x: rat_zero(),
        y: rat_zero(),
        w: Rat { n: sr.w as int, d: 1 },
        h: Rat { n: sr.h as int, d: 1 },
    }
}

/// The planned triangle-list call is exactly the triangulation of the source
/// rectangle under the transform, with the color repeated per vertex and the
/// texture coordinates normalized by the texture size.
pub open spec fn tri_call_ok(
    call: DrawCall,
    t: Mat,
    sr: SourceRectangle,
    c: Color,
    w: int,
    h: int,
) -> bool {
    call matches DrawCall::TriList { xy, rgba, uv } && xy@.len() == 12 && rgba@.len() == 24
        && uv@.len() == 12 && (forall|i: int|
        0 <= i < 12 ==> (#[trigger] xy@[i])@ == rect_tri_xy_spec(t, src_as_rect(sr))[i]) && (
    forall|i: int| 0 <= i < 24 ==> #[trigger] rgba@[i] == color_stream(c, i)) && (forall|i: int|
        0 <= i < 12 ==> (#[trigger] uv@[i])@ == rect_tri_uv_spec(sr, w, h)[i])
}

/// An image-with-color drawing context.
#[derive(Clone, Debug)]
pub struct ImageColorContext<I> {
    /// View transformation.
    pub view: Matrix2d,
    /// Current transformation.
    pub transform: Matrix2d,
    /// Current image.
    pub image: I,
    /// Current source rectangle.
    pub source_rect: SourceRectangle,
    /// Current color.
    pub color: Color,
}

impl<I> ImageColorContext<I> {
    pub open spec fn wf(self) -> bool {
        self.view.wf() && self.transform.wf() && self.color.wf()
    }

    /// Triangulating this context stays within the machine representation.
    pub open spec fn draw_fits(self) -> bool {
        rect_tri_fits(self.transform@, src_as_rect(self.source_rect))
    }

    /// Whether the draw must enable alpha blending: the color is not fully
    /// opaque, or the texture itself carries alpha.
    pub open spec fn needs_alpha(self, caps: BackEndCaps) -> bool {
        !rat_eq(self.color@.a, rat_one()) || caps.has_texture_alpha
    }

    /// The current transform.
    pub fn get_transform(&self) -> (m: Matrix2d)
        ensures
            m == self.transform,
    {
        self.transform
    }

    /// Derives a context with the given current transform; every other field
    /// is carried over unchanged.
    pub fn transform(self, value: Matrix2d) -> (r: ImageColorContext<I>)
        ensures
            r.transform == value,
            r.view == self.view,
            r.image == self.image,
            r.source_rect == self.source_rect,
            r.color == self.color,
    {
        ImageColorContext {
            view: self.view,
            transform: value,
            image: self.image,
            source_rect: self.source_rect,
            color: self.color,
        }
    }

    /// The view transform.
    pub fn get_view_transform(&self) -> (m: Matrix2d)
        ensures
            m == self.view,
    {
        self.view
    }

    /// Derives a context with the given view transform; every other field is
    /// carried over unchanged.
    pub fn view_transform(self, value: Matrix2d) -> (r: ImageColorContext<I>)
        ensures
            r.view == value,
            r.transform == self.transform,
            r.image == self.image,
            r.source_rect == self.source_rect,
            r.color == self.color,
    {
        ImageColorContext {
            view: value,
            transform: self.transform,
            image: self.image,
            source_rect: self.source_rect,
            color: self.color,
        }
    }

    /// The current color.
    pub fn get_color(&self) -> (c: Color)
        ensures
            c == self.color,
    {
        self.color
    }

    /// Derives a context with the given color. Changing only the color leaves
    /// the view and current transforms exactly as they were.
    pub fn color(self, value: Color) -> (r: ImageColorContext<I>)
        ensures
            r.color == value,
            r.view == self.view,
            r.transform == self.transform,
            r.image == self.image,
            r.source_rect == self.source_rect,
    {
        ImageColorContext {
            view: self.view,
            transform: self.transform,
            image: self.image,
            source_rect: self.source_rect,
            color: value,
        }
    }

    /// The current source rectangle.
    pub fn get_source_rectangle(&self) -> (s: SourceRectangle)
        ensures
            s == self.source_rect,
    {
        self.source_rect
    }

    /// Derives a context with the given source rectangle; every other field
    /// is carried over unchanged.
    pub fn source_rectangle(self, source_rect: SourceRectangle) -> (r: ImageColorContext<I>)
        ensures
            r.source_rect == source_rect,
            r.view == self.view,
            r.transform == self.transform,
            r.image == self.image,
            r.color == self.color,
    {
        ImageColorContext {
            view: self.view,
            transform: self.transform,
            image: self.image,
            source_rect,
            color: self.color,
        }
    }

    /// Adds a destination rectangle, keeping everything else.
    pub fn rect(
        self,
        x: Scalar,
        y: Scalar,
        w: Scalar,
        h: Scalar,
    ) -> (r: ImageRectangleColorContext<I>)
        ensures
            r.rect == (Rect { x, y, w, h }),
            r.view == self.view,
            r.transform == self.transform,
            r.image == self.image,
            r.source_rect == self.source_rect,
            r.color == self.color,
    {
        ImageRectangleColorContext {
            view: self.view,
            transform: self.transform,
            rect: Rect { x, y, w, h },
            image: self.image,
            source_rect: self.source_rect,
            color: self.color,
        }
    }

    /// Plans the backend calls of a draw, from the backend's capability
    /// answers and the texture's pixel size.
    ///
    /// A missing capability is fatal: the plan is refused, never degraded.
    /// A fully transparent color draws nothing: the plan is empty. Otherwise
    /// the plan is, in order: enable alpha blending when needed, bind the
    /// texture, emit the triangle list, unbind, disable blending — backend
    /// state is always restored.
    pub fn draw_calls(&self, caps: BackEndCaps, tex_w: u32, tex_h: u32) -> (res: Result<
        Vec<DrawCall>,
        DrawError,
    >)
        requires
            self.wf(),
            self.draw_fits(),
            0 < tex_w,
            0 < tex_h,
        ensures
            res is Err <==> !(caps.supports_single_texture && caps.supports_tri_list),
            res is Err ==> res == Err::<Vec<DrawCall>, DrawError>(DrawError::UnsupportedBackEnd),
            caps.supports_single_texture && caps.supports_tri_list && self.color@.a.n == 0
                ==> (res matches Ok(calls) && calls@.len() == 0),
            caps.supports_single_texture && caps.supports_tri_list && self.color@.a.n != 0
                && self.needs_alpha(caps) ==> (res matches Ok(calls) && calls@.len() == 5
                && calls@[0] is EnableAlphaBlend && calls@[1] is EnableSingleTexture && tri_call_ok(
                calls@[2],
                self.transform@,
                self.source_rect,
                self.color,
                tex_w as int,
                tex_h as int,
            ) && calls@[3] is DisableSingleTexture && calls@[4] is DisableAlphaBlend),
            caps.supports_single_texture && caps.supports_tri_list && self.color@.a.n != 0
                && !self.needs_alpha(caps) ==> (res matches Ok(calls) && calls@.len() == 3
                && calls@[0] is EnableSingleTexture && tri_call_ok(
                calls@[1],
                self.transform@,
                self.source_rect,
                self.color,
                tex_w as int,
                tex_h as int,
            ) && calls@[2] is DisableSingleTexture),
    {
        if !(caps.supports_single_texture && caps.supports_tri_list) {
            return Err(DrawError::UnsupportedBackEnd);
        }
        // Complete transparency does not need to be rendered.
        if self.color.a.is_zero() {
            return Ok(Vec::new());
        }
        // Alpha blending is needed unless the color is fully opaque and the
        // texture has no alpha channel.
        let needs_alpha = !self.color.a.eqv(Scalar::one()) || caps.has_texture_alpha;
        let rect = Rect {
            x: Scalar::zero(),
            y: Scalar::zero(),
            w: Scalar::from_int(self.source_rect.w as i64),
            h: Scalar::from_int(self.source_rect.h as i64),
        };
        let xy = rect_tri_list_xy(&self.transform, &rect);
        let rgba = rect_tri_list_rgba(&self.color);
        let uv = rect_tri_list_uv(tex_w, tex_h, &self.source_rect);
        let mut calls: Vec<DrawCall> = Vec::new();
        if needs_alpha {
            calls.push(DrawCall::EnableAlphaBlend);
        }
        calls.push(DrawCall::EnableSingleTexture);
        calls.push(DrawCall::TriList { xy, rgba, uv });
        calls.push(DrawCall::DisableSingleTexture);
        if needs_alpha {
            calls.push(DrawCall::DisableAlphaBlend);
        }
        Ok(calls)
    }
}

impl<I: ImageSize> ImageColorContext<I> {
    /// Draws this context: queries the backend's capabilities, plans the
    /// calls, and replays the plan against the backend, in order.
    ///
    /// A backend that lacks a required capability makes the draw fail with
    /// the fatal capability-mismatch error, never a silent fallback.
    pub fn draw<B: BackEnd<I>>(&self, back_end: &mut B) -> (res: Result<(), DrawError>)
        requires
            self.wf(),
            self.draw_fits(),
        ensures
            res is Err ==> res == Err::<(), DrawError>(DrawError::UnsupportedBackEnd),
    {
        let st = back_end.supports_single_texture();
        let tl = back_end.supports_tri_list_xy_f32_rgba_f32_uv_f32();
        if !(st && tl) {
            return Err(DrawError::UnsupportedBackEnd);
        }
        // Complete transparency issues no backend call at all.
        if self.color.a.is_zero() {
            return Ok(());
        }
        let ha = back_end.has_texture_alpha(&self.image);
        let (tex_w, tex_h) = self.image.get_size();
        let caps = BackEndCaps {
            supports_single_texture: st,
            supports_tri_list: tl,
            has_texture_alpha: ha,
        };
        match self.draw_calls(caps, tex_w, tex_h) {
            Ok(calls) => {
                let mut i: usize = 0;
                while i < calls.len()
                    decreases calls.len() - i,
                {
                    match &calls[i] {
                        DrawCall::EnableAlphaBlend => back_end.enable_alpha_blend(),
                        DrawCall::DisableAlphaBlend => back_end.disable_alpha_blend(),
                        DrawCall::EnableSingleTexture => back_end.enable_single_texture(
                            &self.image,
                        ),
                        DrawCall::DisableSingleTexture => back_end.disable_single_texture(),
                        DrawCall::TriList { xy, rgba, uv } => back_end
                            .tri_list_xy_f32_rgba_f32_uv_f32(xy, rgba, uv),
                    }
                    i += 1;
                }
                Ok(())
            },
            Err(e) => Err(e),
        }
    }
}

} // verus!
