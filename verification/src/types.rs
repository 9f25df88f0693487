//! Shape and color attribute values carried by drawing contexts.

use vstd::prelude::*;

use crate::scalar::{rat_eq, rat_mul, rat_mul_fits, rat_one, rat_zero, Rat, Scalar};
use vstd::arithmetic::mul::lemma_mul_basics;

verus! {

/// The mathematical value of a rectangle: x, y, width, height.
#[verifier::ext_equal]
pub ghost struct RectV {
    pub x: Rat,
    pub y: Rat,
    pub w: Rat,
    pub h: Rat,
}

/// A rectangle `[x, y, w, h]`. Degenerate sizes are accepted and passed
/// through unmodified; validation is the caller's concern.
#[derive(Clone, Copy, PartialEq, Eq, Structural, Debug)]
pub struct Rect {
    pub x: Scalar,
    pub y: Scalar,
    pub w: Scalar,
    pub h: Scalar,
}

impl View for Rect {
    type V = RectV;

    open spec fn view(&self) -> RectV {
        RectV { x: self.x@, y: self.y@, w: self.w@, h: self.h@ }
    }
}

impl Rect {
    pub open spec fn wf(self) -> bool {
        self.x.wf() && self.y.wf() && self.w.wf() && self.h.wf()
    }
}

/// A line segment `[x1, y1, x2, y2]`.
#[derive(Clone, Copy, PartialEq, Eq, Structural, Debug)]
pub struct Line {
    pub x1: Scalar,
    pub y1: Scalar,
    pub x2: Scalar,
    pub y2: Scalar,
}

impl Line {
    pub open spec fn wf(self) -> bool {
        self.x1.wf() && self.y1.wf() && self.x2.wf() && self.y2.wf()
    }
}

/// A pixel-space sub-rectangle of an image, `[x, y, w, h]`.
#[derive(Clone, Copy, PartialEq, Eq, Structural, Debug)]
pub struct SourceRectangle {
    pub x: i32,
    pub y: i32,
    pub w: i32,
    pub h: i32,
}

/// The mathematical value of a color: red, green, blue, alpha.
#[verifier::ext_equal]
pub ghost struct ColorV {
    pub r: Rat,
    pub g: Rat,
    pub b: Rat,
    pub a: Rat,
}

/// An RGBA color. Components conceptually lie in `[0, 1]` but arithmetic is
/// unclamped, exactly as the attribute algebra defines it.
#[derive(Clone, Copy, PartialEq, Eq, Structural, Debug)]
pub struct Color {
    pub r: Scalar,
    pub g: Scalar,
    pub b: Scalar,
    pub a: Scalar,
}

impl View for Color {
    type V = ColorV;

    open spec fn view(&self) -> ColorV {
        ColorV { r: self.r@, g: self.g@, b: self.b@, a: self.a@ }
    }
}

/// The component-wise product of a color with four factors.
pub open spec fn color_mul(c: ColorV, r: Rat, g: Rat, b: Rat, a: Rat) -> ColorV {
    ColorV { r: rat_mul(c.r, r), g: rat_mul(c.g, g), b: rat_mul(c.b, b), a: rat_mul(c.a, a) }
}

/// The component-wise product fits in the machine representation.
pub open spec fn color_mul_fits(c: ColorV, r: Rat, g: Rat, b: Rat, a: Rat) -> bool {
    rat_mul_fits(c.r, r) && rat_mul_fits(c.g, g) && rat_mul_fits(c.b, b) && rat_mul_fits(c.a, a)
}

impl Color {
    pub open spec fn wf(self) -> bool {
        self.r.wf() && self.g.wf() && self.b.wf() && self.a.wf()
    }

    /// Component-wise multiplication against four factors.
    pub fn mul_components(&self, r: Scalar, g: Scalar, b: Scalar, a: Scalar) -> (out: Color)
        requires
            self.wf(),
            r.wf(),
            g.wf(),
            b.wf(),
            a.wf(),
            color_mul_fits(self@, r@, g@, b@, a@),
        ensures
            out@ == color_mul(self@, r@, g@, b@, a@),
            out.wf(),
    {
        Color { r: self.r.mul(r), g: self.g.mul(g), b: self.b.mul(b), a: self.a.mul(a) }
    }
}

/// Multiplying every component by one leaves a color exactly unchanged: in
/// particular, a full-strength tint returns the original color.
pub proof fn lemma_color_mul_one(c: ColorV)
    ensures
        color_mul(c, rat_one(), rat_one(), rat_one(), rat_one()) == c,
{
    lemma_mul_basics(c.r.n);
    lemma_mul_basics(c.r.d);
    lemma_mul_basics(c.g.n);
    lemma_mul_basics(c.g.d);
    lemma_mul_basics(c.b.n);
    lemma_mul_basics(c.b.d);
    lemma_mul_basics(c.a.n);
    lemma_mul_basics(c.a.d);
    assert(color_mul(c, rat_one(), rat_one(), rat_one(), rat_one()) =~~= c);
}

/// Multiplying the red, green and blue components by zero yields black with
/// the original alpha: in particular, a full shade blacks a color out.
pub proof fn lemma_color_mul_zero_is_black(c: ColorV)
    requires
        c.r.d > 0,
        c.g.d > 0,
        c.b.d > 0,
    ensures
        rat_eq(color_mul(c, rat_zero(), rat_zero(), rat_zero(), rat_one()).r, rat_zero()),
        rat_eq(color_mul(c, rat_zero(), rat_zero(), rat_zero(), rat_one()).g, rat_zero()),
        rat_eq(color_mul(c, rat_zero(), rat_zero(), rat_zero(), rat_one()).b, rat_zero()),
        color_mul(c, rat_zero(), rat_zero(), rat_zero(), rat_one()).a == c.a,
{
    lemma_mul_basics(c.r.n);
    lemma_mul_basics(c.g.n);
    lemma_mul_basics(c.b.n);
    lemma_mul_basics(c.r.d);
    lemma_mul_basics(c.g.d);
    lemma_mul_basics(c.b.d);
    lemma_mul_basics(c.a.n);
    lemma_mul_basics(c.a.d);
    assert(color_mul(c, rat_zero(), rat_zero(), rat_zero(), rat_one()).a =~= c.a);
}

} // verus!
