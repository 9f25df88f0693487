//! Triangulation of shapes into flat vertex streams.
//!
//! A rectangle becomes two triangles, six vertices. Each vertex is mapped
//! through the accumulated transform; the color stream repeats the context
//! color per vertex; the texture stream samples the source rectangle
//! normalized by the texture size. Every stream entry is pinned exactly.

use vstd::prelude::*;

use crate::matrix::{mat_entry, Mat, Matrix2d};
use crate::scalar::{rat_add, rat_add_fits, rat_mul, rat_mul_fits, Rat, Scalar};
use crate::types::{Color, Rect, RectV, SourceRectangle};

verus! {

/// The x coordinate of the point `(x, y)` mapped through `m`.
pub open spec fn tf_x(m: Mat, x: Rat, y: Rat) -> Rat {
    rat_add(rat_add(rat_mul(mat_entry(m, 0), x), rat_mul(mat_entry(m, 1), y)), mat_entry(m, 2))
}

/// The y coordinate of the point `(x, y)` mapped through `m`.
pub open spec fn tf_y(m: Mat, x: Rat, y: Rat) -> Rat {
    rat_add(rat_add(rat_mul(mat_entry(m, 3), x), rat_mul(mat_entry(m, 4), y)), mat_entry(m, 5))
}

/// Mapping the point through `m` stays within the machine representation.
pub open spec fn tf_fits(m: Mat, x: Rat, y: Rat) -> bool {
    &&& rat_mul_fits(mat_entry(m, 0), x)
    &&& rat_mul_fits(mat_entry(m, 1), y)
    &&& rat_add_fits(rat_mul(mat_entry(m, 0), x), rat_mul(mat_entry(m, 1), y))
    &&& rat_add_fits(
        rat_add(rat_mul(mat_entry(m, 0), x), rat_mul(mat_entry(m, 1), y)),
        mat_entry(m, 2),
    )
    &&& rat_mul_fits(mat_entry(m, 3), x)
    &&& rat_mul_fits(mat_entry(m, 4), y)
    &&& rat_add_fits(rat_mul(mat_entry(m, 3), x), rat_mul(mat_entry(m, 4), y))
    &&& rat_add_fits(
        rat_add(rat_mul(mat_entry(m, 3), x), rat_mul(mat_entry(m, 4), y)),
        mat_entry(m, 5),
    )
}

/// All four rectangle corners can be mapped through `m` exactly.
pub open spec fn rect_tri_fits(m: Mat, r: RectV) -> bool {
    &&& rat_add_fits(r.x, r.w)
    &&& rat_add_fits(r.y, r.h)
    &&& tf_fits(m, r.x, r.y)
    &&& tf_fits(m, rat_add(r.x, r.w), r.y)
    &&& tf_fits(m, r.x, rat_add(r.y, r.h))
    &&& tf_fits(m, rat_add(r.x, r.w), rat_add(r.y, r.h))
}

/// The twelve position-stream entries of a triangulated rectangle: two
/// triangles, six vertices, x then y for each.
pub open spec fn rect_tri_xy_spec(m: Mat, r: RectV) -> Seq<Rat> {
    let x2 = rat_add(r.x, r.w);
    let y2 = rat_add(r.y, r.h);
    seq![
        tf_x(m, r.x, r.y),
        tf_y(m, r.x, r.y),
        tf_x(m, x2, r.y),
        tf_y(m, x2, r.y),
        tf_x(m, r.x, y2),
        tf_y(m, r.x, y2),
        tf_x(m, x2, r.y),
        tf_y(m, x2, r.y),
        tf_x(m, x2, y2),
        tf_y(m, x2, y2),
        tf_x(m, r.x, y2),
        tf_y(m, r.x, y2),
    ]
}

/// Entry `i` of the color stream: the context color, repeated per vertex.
pub open spec fn color_stream(c: Color, i: int) -> Scalar {
    if i % 4 == 0 {
        c.r
    } else if i % 4 == 1 {
        c.g
    } else if i % 4 == 2 {
        c.b
    } else {
        c.a
    }
}

/// The twelve texture-coordinate entries of a triangulated source rectangle,
/// normalized by the texture size.
pub open spec fn rect_tri_uv_spec(s: SourceRectangle, w: int, h: int) -> Seq<Rat> {
    let u0 = Rat { n: s.x as int, d: w };
    let u1 = Rat { n: s.x as int + s.w as int, d: w };
    let v0 = Rat { n: s.y as int, d: h };
    let v1 = Rat { n: s.y as int + s.h as int, d: h };
    seq![u0, v0, u1, v0, u0, v1, u1, v0, u1, v1, u0, v1]
}

/// Maps a point through the transform, exactly.
pub fn transform_pos(m: &Matrix2d, x: Scalar, y: Scalar) -> (r: (Scalar, Scalar))
    requires
        m.wf(),
        x.wf(),
        y.wf(),
        tf_fits(m@, x@, y@),
    ensures
        r.0@ == tf_x(m@, x@, y@),
        r.1@ == tf_y(m@, x@, y@),
        r.0.wf(),
        r.1.wf(),
{
    let rx = m.get(0).mul(x).add(m.get(1).mul(y)).add(m.get(2));
    let ry = m.get(3).mul(x).add(m.get(4).mul(y)).add(m.get(5));
    (rx, ry)
}

/// The position stream of a rectangle under a transform.
pub fn rect_tri_list_xy(m: &Matrix2d, r: &Rect) -> (v: Vec<Scalar>)
    requires
        m.wf(),
        r.wf(),
        rect_tri_fits(m@, r@),
    ensures
        v@.len() == 12,
        forall|i: int| 0 <= i < 12 ==> (#[trigger] v@[i])@ == rect_tri_xy_spec(m@, r@)[i],
        forall|i: int| 0 <= i < 12 ==> (#[trigger] v@[i]).wf(),
{
    let x2 = r.x.add(r.w);
    let y2 = r.y.add(r.h);
    let p00 = transform_pos(m, r.x, r.y);
    let p10 = transform_pos(m, x2, r.y);
    let p01 = transform_pos(m, r.x, y2);
    let p11 = transform_pos(m, x2, y2);
    let mut v: Vec<Scalar> = Vec::new();
    v.push(p00.0);
    v.push(p00.1);
    v.push(p10.0);
    v.push(p10.1);
    v.push(p01.0);
    v.push(p01.1);
    v.push(p10.0);
    v.push(p10.1);
    v.push(p11.0);
    v.push(p11.1);
    v.push(p01.0);
    v.push(p01.1);
    v
}

/// The color stream of a triangulated rectangle: the color, six times over.
pub fn rect_tri_list_rgba(c: &Color) -> (v: Vec<Scalar>)
    requires
        c.wf(),
    ensures
        v@.len() == 24,
        forall|i: int| 0 <= i < 24 ==> #[trigger] v@[i] == color_stream(*c, i),
{
    let mut v: Vec<Scalar> = Vec::new();
    let mut k: usize = 0;
    while k < 6
        invariant
            c.wf(),
            k <= 6,
            v@.len() == 4 * k,
            forall|i: int| 0 <= i < 4 * k ==> #[trigger] v@[i] == color_stream(*c, i),
        decreases 6 - k,
    {
        v.push(c.r);
        v.push(c.g);
        v.push(c.b);
        v.push(c.a);
        k += 1;
    }
    v
}

/// The texture-coordinate stream of a source rectangle within a texture of
/// the given pixel size.
pub fn rect_tri_list_uv(tex_w: u32, tex_h: u32, s: &SourceRectangle) -> (v: Vec<Scalar>)
    requires
        0 < tex_w,
        0 < tex_h,
    ensures
        v@.len() == 12,
        forall|i: int| 0 <= i < 12 ==> (#[trigger] v@[i])@ == rect_tri_uv_spec(
            *s,
            tex_w as int,
            tex_h as int,
        )[i],
        forall|i: int| 0 <= i < 12 ==> (#[trigger] v@[i]).wf(),
{
    let w64: i64 = tex_w as i64;
    let h64: i64 = tex_h as i64;
    let u0 = Scalar::new(s.x as i64, w64);
    let u1 = Scalar::new((s.x as i64) + (s.w as i64), w64);
    let v0 = Scalar::new(s.y as i64, h64);
    let v1 = Scalar::new((s.y as i64) + (s.h as i64), h64);
    let mut v: Vec<Scalar> = Vec::new();
    v.push(u0);
    v.push(v0);
    v.push(u1);
    v.push(v0);
    v.push(u0);
    v.push(v1);
    v.push(u1);
    v.push(v0);
    v.push(u1);
    v.push(v1);
    v.push(u0);
    v.push(v1);
    v
}

} // verus!
