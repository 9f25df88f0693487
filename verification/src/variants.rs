//! The shape-bearing context variants.
//!
//! Each variant extends the base view/transform pair with the attribute its
//! terminal operation supplied. A derived context is produced from exactly one
//! parent by a single attribute-setting operation; contexts are immutable, so
//! deriving one leaves the parent untouched.

use vstd::prelude::*;

use crate::image_color_context::ImageColorContext;
use crate::matrix::Matrix2d;
use crate::scalar::Scalar;
use crate::types::{Color, Line, Rect, SourceRectangle};

verus! {

/// A context with a rectangle to draw.
#[derive(Clone, Copy, Debug)]
pub struct RectangleContext {
    pub view: Matrix2d,
    pub transform: Matrix2d,
    pub rect: Rect,
}

/// A context with an ellipse, described by its enclosing rectangle.
#[derive(Clone, Copy, Debug)]
pub struct EllipseContext {
    pub view: Matrix2d,
    pub transform: Matrix2d,
    pub rect: Rect,
}

/// A context with a line segment.
#[derive(Clone, Copy, Debug)]
pub struct LineContext {
    pub view: Matrix2d,
    pub transform: Matrix2d,
    pub line: Line,
}

/// A context with a polygon: a flat list of 2D points.
#[derive(Clone, Debug)]
pub struct PolygonContext {
    pub view: Matrix2d,
    pub transform: Matrix2d,
    pub polygon: Vec<Scalar>,
}

/// A context with a tween factor for linear interpolation.
#[derive(Clone, Copy, Debug)]
pub struct LerpTweenContext {
    pub view: Matrix2d,
    pub transform: Matrix2d,
    pub tween_factor: Scalar,
}

/// A context with a color.
#[derive(Clone, Copy, Debug)]
pub struct ColorContext {
    pub view: Matrix2d,
    pub transform: Matrix2d,
    pub color: Color,
}

/// A context with an image and the source rectangle to sample from it.
#[derive(Clone, Debug)]
pub struct ImageContext<I> {
    pub view: Matrix2d,
    pub transform: Matrix2d,
    pub image: I,
    pub source_rect: SourceRectangle,
}

/// A context with an image, a destination rectangle and a color.
#[derive(Clone, Debug)]
pub struct ImageRectangleColorContext<I> {
    pub view: Matrix2d,
    pub transform: Matrix2d,
    pub rect: Rect,
    pub image: I,
    pub source_rect: SourceRectangle,
    pub color: Color,
}

impl ColorContext {
    pub open spec fn wf(self) -> bool {
        self.view.wf() && self.transform.wf() && self.color.wf()
    }

    /// The current color.
    pub fn get_color(&self) -> (c: Color)
        ensures
            c == self.color,
    {
        self.color
    }

    /// Derives a context with the given color. Changing only the color leaves
    /// the view and current transforms exactly as they were.
    pub fn color(&self, value: Color) -> (r: ColorContext)
        ensures
            r.color == value,
            r.view == self.view,
            r.transform == self.transform,
    {
        ColorContext { view: self.view, transform: self.transform, color: value }
    }

    /// The current transform.
    pub fn get_transform(&self) -> (m: Matrix2d)
        ensures
            m == self.transform,
    {
        self.transform
    }

    /// Derives a context with the given current transform; every other field
    /// is carried over unchanged.
    pub fn transform(&self, value: Matrix2d) -> (r: ColorContext)
        ensures
            r.transform == value,
            r.view == self.view,
            r.color == self.color,
    {
        ColorContext { view: self.view, transform: value, color: self.color }
    }

    /// The view transform.
    pub fn get_view_transform(&self) -> (m: Matrix2d)
        ensures
            m == self.view,
    {
        self.view
    }

    /// Derives a context with the given view transform; every other field is
    /// carried over unchanged.
    pub fn view_transform(&self, value: Matrix2d) -> (r: ColorContext)
        ensures
            r.view == value,
            r.transform == self.transform,
            r.color == self.color,
    {
        ColorContext { view: value, transform: self.transform, color: self.color }
    }
}

impl<I> ImageContext<I> {
    /// Adds a color, keeping the image, source rectangle and transforms.
    pub fn rgba(self, r: Scalar, g: Scalar, b: Scalar, a: Scalar) -> (out: ImageColorContext<I>)
        ensures
            out.view == self.view,
            out.transform == self.transform,
            out.image == self.image,
            out.source_rect == self.source_rect,
            out.color == (Color { r, g, b, a }),
    {
        ImageColorContext {
            view: self.view,
            transform: self.transform,
            image: self.image,
            source_rect: self.source_rect,
            color: Color { r, g, b, a },
        }
    }
}

} // verus!
