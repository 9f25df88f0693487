//! Derived color operations, generic over any color-bearing context.
//!
//! Implemented by contexts that expose a get-color/with-color pair; the
//! derived operations are expressed once, purely in terms of that pair, so
//! every color-bearing variant shares the same three lines of logic.
//!
//! Hue rotation is not among them: it converts through radians and pi and
//! machine trigonometry, which the exact-rational core cannot hold, so it
//! lives in the floating-point layer around the library.

use vstd::prelude::*;

use crate::scalar::{int_in_i64, rat_one, rat_sub, rat_sub_fits, Scalar};
use crate::types::{color_mul, color_mul_fits, Color, ColorV};
use crate::variants::ColorContext;
use crate::image_color_context::ImageColorContext;

verus! {

/// Implemented by contexts that contain a color.
pub trait RelativeColor: Sized {
    /// The mathematical value of the current color.
    spec fn color_spec(&self) -> ColorV;

    /// The current color is well formed.
    spec fn color_wf(&self) -> bool;

    /// Everything except the color is carried over from `self` to `o`:
    /// the view and current transforms, and whatever shape attributes the
    /// context holds.
    spec fn color_frame(&self, o: &Self) -> bool;

    /// The current color.
    fn get_color(&self) -> (c: Color)
        requires
            self.color_wf(),
        ensures
            c@ == self.color_spec(),
            c.wf(),
    ;

    /// Derives a context with the given color, everything else unchanged.
    fn with_color(self, value: Color) -> (r: Self)
        requires
            self.color_wf(),
            value.wf(),
        ensures
            r.color_spec() == value@,
            r.color_wf(),
            self.color_frame(&r),
    ;

    /// Multiplies the current color component-wise with the given red,
    /// green, blue and alpha factors; no clamping.
    fn mul_rgba(self, r: Scalar, g: Scalar, b: Scalar, a: Scalar) -> (out: Self)
        requires
            self.color_wf(),
            r.wf(),
            g.wf(),
            b.wf(),
            a.wf(),
            color_mul_fits(self.color_spec(), r@, g@, b@, a@),
        ensures
            out.color_spec() == color_mul(self.color_spec(), r@, g@, b@, a@),
            out.color_wf(),
            self.color_frame(&out),
    {
        let c = self.get_color();
        self.with_color(c.mul_components(r, g, b, a))
    }

    /// Mixes the current color with white: multiplies red, green and blue
    /// by `f` and keeps alpha. 0 is black and 1 is the original color.
    fn tint(self, f: Scalar) -> (out: Self)
        requires
            self.color_wf(),
            f.wf(),
            color_mul_fits(self.color_spec(), f@, f@, f@, rat_one()),
        ensures
            out.color_spec() == color_mul(self.color_spec(), f@, f@, f@, rat_one()),
            out.color_wf(),
            self.color_frame(&out),
    {
        self.mul_rgba(f, f, f, Scalar::one())
    }

    /// Mixes the current color with black: multiplies red, green and blue
    /// by `1 - f` and keeps alpha. 0 is the original color and 1 is black.
    fn shade(self, f: Scalar) -> (out: Self)
        requires
            self.color_wf(),
            f.wf(),
            rat_sub_fits(rat_one(), f@),
            color_mul_fits(
                self.color_spec(),
                rat_sub(rat_one(), f@),
                rat_sub(rat_one(), f@),
                rat_sub(rat_one(), f@),
                rat_one(),
            ),
        ensures
            out.color_spec() == color_mul(
                self.color_spec(),
                rat_sub(rat_one(), f@),
                rat_sub(rat_one(), f@),
                rat_sub(rat_one(), f@),
                rat_one(),
            ),
            out.color_wf(),
            self.color_frame(&out),
    {
        let g = Scalar::one().sub(f);
        self.mul_rgba(g, g, g, Scalar::one())
    }
}

impl RelativeColor for ColorContext {
    open spec fn color_spec(&self) -> ColorV {
        self.color@
    }

    open spec fn color_wf(&self) -> bool {
        self.color.wf()
    }

    open spec fn color_frame(&self, o: &Self) -> bool {
        o.view == self.view && o.transform == self.transform
    }

    fn get_color(&self) -> (c: Color) {
        self.color
    }

    fn with_color(self, value: Color) -> (r: Self) {
        ColorContext { view: self.view, transform: self.transform, color: value }
    }
}

impl<I> RelativeColor for ImageColorContext<I> {
    open spec fn color_spec(&self) -> ColorV {
        self.color@
    }

    open spec fn color_wf(&self) -> bool {
        self.color.wf()
    }

    open spec fn color_frame(&self, o: &Self) -> bool {
        o.view == self.view && o.transform == self.transform && o.image == self.image
            && o.source_rect == self.source_rect
    }

    fn get_color(&self) -> (c: Color) {
        self.color
    }

    fn with_color(self, value: Color) -> (r: Self) {
        ImageColorContext {
            view: self.view,
            transform: self.transform,
            image: self.image,
            source_rect: self.source_rect,
            color: value,
        }
    }
}

} // verus!
