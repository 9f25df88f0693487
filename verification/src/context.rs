//! The base drawing context: a view transform and a current transform.
//!
//! Every relative operation post-multiplies an elementary matrix into the
//! current transform, so later operations act in the local frame established
//! by earlier ones. Shape-adding operations derive a shape-typed context and
//! carry both transforms over unchanged.

use vstd::prelude::*;

use crate::back_end::ImageSize;
use crate::image_color_context::ImageColorContext;
use crate::matrix::{
    cross_fits, mat_abs, mat_flip_h, mat_flip_v, mat_identity, mat_mul, mat_mul_fits, mat_rot_cs,
    mat_rot_deg, mat_scale, mat_shear, mat_translate, Matrix2d,
};
use crate::scalar::{rat_div, rat_div_fits, rat_from_int, Rat, Scalar};
use crate::types::{Color, Line, Rect, SourceRectangle};
use crate::variants::{
    ColorContext, EllipseContext, ImageContext, LerpTweenContext, LineContext, PolygonContext,
    RectangleContext,
};

verus! {

/// The scale factors of the absolute-coordinate view: `2 / w` and `-2 / h`.
pub open spec fn abs_sx(w: Rat) -> Rat {
    rat_div(rat_from_int(2), w)
}

pub open spec fn abs_sy(h: Rat) -> Rat {
    rat_div(rat_from_int(-2), h)
}

/// The absolute-coordinate view stays within the machine representation.
pub open spec fn abs_fits(w: Rat, h: Rat) -> bool {
    rat_div_fits(rat_from_int(2), w) && rat_div_fits(rat_from_int(-2), h) && cross_fits(
        abs_sx(w),
        abs_sy(h),
    )
}

/// The base drawing 2d context.
#[derive(Clone, Copy, Debug)]
pub struct Context {
    /// View transformation: fixed at construction.
    pub view: Matrix2d,
    /// Current transformation: accumulated by relative operations.
    pub transform: Matrix2d,
}

impl Context {
    pub open spec fn wf(self) -> bool {
        self.view.wf() && self.transform.wf()
    }

    /// Creates a new drawing context with identity view and transform.
    pub fn new() -> (r: Context)
        ensures
            r.view@ == mat_identity(),
            r.transform@ == mat_identity(),
            r.wf(),
    {
        Context { view: Matrix2d::identity(), transform: Matrix2d::identity() }
    }

    /// Creates a new drawing context in absolute coordinates: origin in the
    /// upper left corner, x to the right, y down, mapped onto the default
    /// centered y-up space by `[2/w 0 -1; 0 -2/h 1]`.
    pub fn abs(w: Scalar, h: Scalar) -> (r: Context)
        requires
            w.wf(),
            h.wf(),
            w@.n != 0,
            h@.n != 0,
            abs_fits(w@, h@),
        ensures
            r.view@ == mat_abs(abs_sx(w@), abs_sy(h@)),
            r.transform@ == r.view@,
            r.wf(),
    {
        let sx = Scalar::from_int(2).div(w);
        let sy = Scalar::from_int(-2).div(h);
        let m = Matrix2d::abs_map(sx, sy);
        Context { view: m, transform: m }
    }

    /// The current transform.
    pub fn get_transform(&self) -> (m: Matrix2d)
        ensures
            m == self.transform,
    {
        self.transform
    }

    /// Derives a context with the given current transform, the view carried
    /// over unchanged.
    pub fn transform(&self, value: Matrix2d) -> (r: Context)
        ensures
            r.transform == value,
            r.view == self.view,
    {
        Context { view: self.view, transform: value }
    }

    /// The view transform.
    pub fn get_view_transform(&self) -> (m: Matrix2d)
        ensures
            m == self.view,
    {
        self.view
    }

    /// Derives a context with the given view transform, the current transform
    /// carried over unchanged.
    pub fn view_transform(&self, value: Matrix2d) -> (r: Context)
        ensures
            r.view == value,
            r.transform == self.transform,
    {
        Context { view: value, transform: self.transform }
    }

    /// Translates in the local frame: post-multiplies `[1 0 x; 0 1 y]`.
    pub fn trans(&self, x: Scalar, y: Scalar) -> (r: Context)
        requires
            self.wf(),
            x.wf(),
            y.wf(),
            cross_fits(x@, y@),
            mat_mul_fits(self.transform@, mat_translate(x@, y@)),
        ensures
            r.transform@ == mat_mul(self.transform@, mat_translate(x@, y@)),
            r.view == self.view,
            r.wf(),
    {
        Context {
            view: self.view,
            transform: self.transform.multiply(&Matrix2d::translated(x, y)),
        }
    }

    /// Rotates in the local frame by a multiple of 90 degrees, exactly.
    pub fn rot_deg(&self, deg: i64) -> (r: Context)
        requires
            self.wf(),
            deg as int % 90 == 0,
            mat_mul_fits(self.transform@, mat_rot_deg(deg as int)),
        ensures
            r.transform@ == mat_mul(self.transform@, mat_rot_deg(deg as int)),
            r.view == self.view,
            r.wf(),
    {
        Context {
            view: self.view,
            transform: self.transform.multiply(&Matrix2d::rotation_deg(deg)),
        }
    }

    /// Rotates in the local frame by the angle whose cosine and sine are
    /// given: post-multiplies `[c -s 0; s c 0]`.
    pub fn rot_cs(&self, c: Scalar, s: Scalar) -> (r: Context)
        requires
            self.wf(),
            c.wf(),
            s.wf(),
            cross_fits(c@, s@),
            mat_mul_fits(self.transform@, mat_rot_cs(c@, s@)),
        ensures
            r.transform@ == mat_mul(self.transform@, mat_rot_cs(c@, s@)),
            r.view == self.view,
            r.wf(),
    {
        Context {
            view: self.view,
            transform: self.transform.multiply(&Matrix2d::rotation_cs(c, s)),
        }
    }

    /// Scales in the local frame: post-multiplies `[sx 0 0; 0 sy 0]`.
    pub fn scale(&self, sx: Scalar, sy: Scalar) -> (r: Context)
        requires
            self.wf(),
            sx.wf(),
            sy.wf(),
            cross_fits(sx@, sy@),
            mat_mul_fits(self.transform@, mat_scale(sx@, sy@)),
        ensures
            r.transform@ == mat_mul(self.transform@, mat_scale(sx@, sy@)),
            r.view == self.view,
            r.wf(),
    {
        Context { view: self.view, transform: self.transform.multiply(&Matrix2d::scaled(sx, sy)) }
    }

    /// Shears in the local frame: post-multiplies `[1 sx 0; sy 1 0]`.
    pub fn shear(&self, sx: Scalar, sy: Scalar) -> (r: Context)
        requires
            self.wf(),
            sx.wf(),
            sy.wf(),
            cross_fits(sx@, sy@),
            mat_mul_fits(self.transform@, mat_shear(sx@, sy@)),
        ensures
            r.transform@ == mat_mul(self.transform@, mat_shear(sx@, sy@)),
            r.view == self.view,
            r.wf(),
    {
        Context { view: self.view, transform: self.transform.multiply(&Matrix2d::sheared(sx, sy)) }
    }

    /// Mirrors about the y axis in the local frame.
    pub fn flip_h(&self) -> (r: Context)
        requires
            self.wf(),
            mat_mul_fits(self.transform@, mat_flip_h()),
        ensures
            r.transform@ == mat_mul(self.transform@, mat_flip_h()),
            r.view == self.view,
            r.wf(),
    {
        Context {
            view: self.view,
            transform: self.transform.multiply(&Matrix2d::flip_h_matrix()),
        }
    }

    /// Mirrors about the x axis in the local frame.
    pub fn flip_v(&self) -> (r: Context)
        requires
            self.wf(),
            mat_mul_fits(self.transform@, mat_flip_v()),
        ensures
            r.transform@ == mat_mul(self.transform@, mat_flip_v()),
            r.view == self.view,
            r.wf(),
    {
        Context {
            view: self.view,
            transform: self.transform.multiply(&Matrix2d::flip_v_matrix()),
        }
    }

    /// Adds a rectangle, reading back exactly what was supplied.
    pub fn rect(&self, x: Scalar, y: Scalar, w: Scalar, h: Scalar) -> (r: RectangleContext)
        ensures
            r.rect == (Rect { x, y, w, h }),
            r.view == self.view,
            r.transform == self.transform,
    {
        RectangleContext {
            view: self.view,
            transform: self.transform,
            rect: Rect { x, y, w, h },
        }
    }

    /// Adds a color.
    pub fn rgba(&self, r: Scalar, g: Scalar, b: Scalar, a: Scalar) -> (out: ColorContext)
        ensures
            out.color == (Color { r, g, b, a }),
            out.view == self.view,
            out.transform == self.transform,
    {
        ColorContext {
            view: self.view,
            transform: self.transform,
            color: Color { r, g, b, a },
        }
    }

    /// Adds an ellipse, described by its enclosing rectangle.
    pub fn ellipse(&self, x: Scalar, y: Scalar, w: Scalar, h: Scalar) -> (r: EllipseContext)
        ensures
            r.rect == (Rect { x, y, w, h }),
            r.view == self.view,
            r.transform == self.transform,
    {
        EllipseContext {
            view: self.view,
            transform: self.transform,
            rect: Rect { x, y, w, h },
        }
    }

    /// Adds a line segment.
    pub fn line(&self, x1: Scalar, y1: Scalar, x2: Scalar, y2: Scalar) -> (r: LineContext)
        ensures
            r.line == (Line { x1, y1, x2, y2 }),
            r.view == self.view,
            r.transform == self.transform,
    {
        LineContext {
            view: self.view,
            transform: self.transform,
            line: Line { x1, y1, x2, y2 },
        }
    }

    /// Adds a polygon: a flat list of 2D points, passed through unmodified.
    pub fn polygon(&self, polygon: Vec<Scalar>) -> (r: PolygonContext)
        ensures
            r.polygon@ == polygon@,
            r.view == self.view,
            r.transform == self.transform,
    {
        PolygonContext { view: self.view, transform: self.transform, polygon }
    }

    /// Places an image whose pixel size is already known: the source
    /// rectangle defaults to the whole image, `[0, 0, w, h]`.
    pub fn image_with_size<I>(&self, image: I, w: u32, h: u32) -> (r: ImageContext<I>)
        ensures
            r.view == self.view,
            r.transform == self.transform,
            r.image == image,
            r.source_rect == (SourceRectangle { x: 0, y: 0, w: w as i32, h: h as i32 }),
    {
        ImageContext {
            view: self.view,
            transform: self.transform,
            image,
            source_rect: SourceRectangle { x: 0, y: 0, w: w as i32, h: h as i32 },
        }
    }

    /// Adds an image: queries its intrinsic size and defaults the source
    /// rectangle to the whole image. The size itself comes through the
    /// `ImageSize` trait call; `image_with_size` carries the exact contract
    /// over the size it is handed.
    pub fn image<I: ImageSize>(&self, image: I) -> (r: ImageContext<I>)
        ensures
            r.view == self.view,
            r.transform == self.transform,
            r.image == image,
            r.source_rect.x == 0,
            r.source_rect.y == 0,
            0 < r.source_rect.w,
            0 < r.source_rect.h,
    {
        let (w, h) = image.get_size();
        self.image_with_size(image, w, h)
    }

    /// Adds a tween factor for linear interpolation.
    pub fn lerp(&self, tween_factor: Scalar) -> (r: LerpTweenContext)
        ensures
            r.tween_factor == tween_factor,
            r.view == self.view,
            r.transform == self.transform,
    {
        LerpTweenContext { view: self.view, transform: self.transform, tween_factor }
    }
}

} // verus!
