//! The pluggable rendering backend boundary.
//!
//! The library never rasterizes: a fully specified context plans a bounded
//! sequence of backend calls, and `draw` replays the plan against any
//! implementation of `BackEnd`. Capability negotiation is explicit: a backend
//! that lacks the required primitive format makes the draw fail loudly.

use vstd::prelude::*;

use crate::scalar::Scalar;

verus! {

/// Implemented by images: reports the intrinsic size in pixels.
///
/// An image always has at least one pixel on each axis, and its size fits the
/// pixel-space source-rectangle representation.
pub trait ImageSize {
    fn get_size(&self) -> (r: (u32, u32))
        ensures
            0 < r.0 <= i32::MAX as u32,
            0 < r.1 <= i32::MAX as u32,
    ;
}

/// A rendering backend: capability queries, blend and texture state toggles,
/// and the triangle-list draw call. Implementations are external collaborators
/// and carry no further contract.
pub trait BackEnd<I: ImageSize> {
    /// Whether a single texture can be bound while drawing.
    fn supports_single_texture(&self) -> bool;

    /// Whether the triangle-list format with per-vertex position, color and
    /// texture coordinates is supported.
    fn supports_tri_list_xy_f32_rgba_f32_uv_f32(&self) -> bool;

    /// Whether the given texture carries a non-opaque alpha channel.
    fn has_texture_alpha(&self, texture: &I) -> bool;

    fn enable_alpha_blend(&mut self);

    fn disable_alpha_blend(&mut self);

    fn enable_single_texture(&mut self, texture: &I);

    fn disable_single_texture(&mut self);

    /// Emits a triangle list: three parallel streams, two position and two
    /// texture coordinates and four color components per vertex.
    fn tri_list_xy_f32_rgba_f32_uv_f32(&mut self, xy: &Vec<Scalar>, rgba: &Vec<Scalar>, uv: &Vec<Scalar>);
}

/// A backend's answers to the capability queries, taken as plain values so
/// the dispatch decision is a verified function of them.
#[derive(Clone, Copy, PartialEq, Eq, Structural, Debug)]
pub struct BackEndCaps {
    pub supports_single_texture: bool,
    pub supports_tri_list: bool,
    pub has_texture_alpha: bool,
}

/// One backend call of a planned draw, in issue order.
pub enum DrawCall {
    EnableAlphaBlend,
    DisableAlphaBlend,
    EnableSingleTexture,
    DisableSingleTexture,
    TriList { xy: Vec<Scalar>, rgba: Vec<Scalar>, uv: Vec<Scalar> },
}

/// Why a draw could not be performed.
#[derive(Clone, Copy, PartialEq, Eq, Structural, Debug)]
pub enum DrawError {
    /// The backend lacks a required capability: a setup defect, fatal by
    /// design, never a silent fallback.
    UnsupportedBackEnd,
}

} // verus!
