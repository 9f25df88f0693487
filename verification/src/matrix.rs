//! 2x3 affine transform matrices over exact rational scalars.
//!
//! A matrix `[a b tx; c d ty]` (row-major, homogeneous row omitted) is stored
//! as six integer numerators over one shared positive denominator, so the
//! matrix product is a total function on representations and composition is
//! literally associative, not merely associative up to rational equality.

use vstd::prelude::*;

use crate::scalar::{
    int_in_i64, lemma_i64_mul_fits_i128, lemma_mul_signs, rat_add, Rat, Scalar,
};
use vstd::arithmetic::mul::{
    lemma_mul_basics, lemma_mul_is_associative, lemma_mul_is_commutative,
    lemma_mul_is_distributive_add, lemma_mul_is_distributive_add_other_way,
};

verus! {

/// The mathematical value of a matrix: six numerators over one denominator,
/// all unbounded integers. Entry `i` denotes the rational `n_i / d`.
#[verifier::ext_equal]
pub ghost struct Mat {
    pub n0: int,
    pub n1: int,
    pub n2: int,
    pub n3: int,
    pub n4: int,
    pub n5: int,
    pub d: int,
}

/// A well-formed matrix has a positive denominator.
pub open spec fn mat_wf(m: Mat) -> bool {
    m.d > 0
}

/// Entry `i` of the matrix, as a rational.
pub open spec fn mat_entry(m: Mat, i: int) -> Rat {
    Rat {
        n: if i == 0 {
            m.n0
        } else if i == 1 {
            m.n1
        } else if i == 2 {
            m.n2
        } else if i == 3 {
            m.n3
        } else if i == 4 {
            m.n4
        } else {
            m.n5
        },
        d: m.d,
    }
}

pub open spec fn mat_identity() -> Mat {
    Mat { n0: 1, n1: 0, n2: 0, n3: 0, n4: 1, n5: 0, d: 1 }
}

/// The product `a * b`: apply `b`, then `a`.
pub open spec fn mat_mul(a: Mat, b: Mat) -> Mat {
    Mat {
        n0: a.n0 * b.n0 + a.n1 * b.n3,
        n1: a.n0 * b.n1 + a.n1 * b.n4,
        n2: a.n0 * b.n2 + a.n1 * b.n5 + a.n2 * b.d,
        n3: a.n3 * b.n0 + a.n4 * b.n3,
        n4: a.n3 * b.n1 + a.n4 * b.n4,
        n5: a.n3 * b.n2 + a.n4 * b.n5 + a.n5 * b.d,
        d: a.d * b.d,
    }
}

/// The translation matrix `[1 0 x; 0 1 y]`.
pub open spec fn mat_translate(x: Rat, y: Rat) -> Mat {
    Mat {
        n0: x.d * y.d,
        n1: 0,
        n2: x.n * y.d,
        n3: 0,
        n4: x.d * y.d,
        n5: x.d * y.n,
        d: x.d * y.d,
    }
}

/// The scale matrix `[sx 0 0; 0 sy 0]`.
pub open spec fn mat_scale(sx: Rat, sy: Rat) -> Mat {
    Mat {
        n0: sx.n * sy.d,
        n1: 0,
        n2: 0,
        n3: 0,
        n4: sx.d * sy.n,
        n5: 0,
        d: sx.d * sy.d,
    }
}

/// The shear matrix `[1 sx 0; sy 1 0]`.
pub open spec fn mat_shear(sx: Rat, sy: Rat) -> Mat {
    Mat {
        n0: sx.d * sy.d,
        n1: sx.n * sy.d,
        n2: 0,
        n3: sx.d * sy.n,
        n4: sx.d * sy.d,
        n5: 0,
        d: sx.d * sy.d,
    }
}

/// The rotation matrix `[c -s 0; s c 0]` for a given cosine and sine.
pub open spec fn mat_rot_cs(c: Rat, s: Rat) -> Mat {
    Mat {
        n0: c.n * s.d,
        n1: -(s.n * c.d),
        n2: 0,
        n3: s.n * c.d,
        n4: c.n * s.d,
        n5: 0,
        d: c.d * s.d,
    }
}

/// Rotation by a whole number of degrees that is a multiple of 90,
/// reduced to one of the four exact quarter turns.
pub open spec fn mat_rot_deg(deg: int) -> Mat {
    let m = deg % 360;
    if m == 0 {
        mat_identity()
    } else if m == 90 {
        Mat { n0: 0, n1: -1, n2: 0, n3: 1, n4: 0, n5: 0, d: 1 }
    } else if m == 180 {
        Mat { n0: -1, n1: 0, n2: 0, n3: 0, n4: -1, n5: 0, d: 1 }
    } else {
        Mat { n0: 0, n1: 1, n2: 0, n3: -1, n4: 0, n5: 0, d: 1 }
    }
}

/// Mirror about the y axis: `[-1 0 0; 0 1 0]`.
pub open spec fn mat_flip_h() -> Mat {
    Mat { n0: -1, n1: 0, n2: 0, n3: 0, n4: 1, n5: 0, d: 1 }
}

/// Mirror about the x axis: `[1 0 0; 0 -1 0]`.
pub open spec fn mat_flip_v() -> Mat {
    Mat { n0: 1, n1: 0, n2: 0, n3: 0, n4: -1, n5: 0, d: 1 }
}

/// The absolute-coordinate view matrix `[sx 0 -1; 0 sy 1]`.
pub open spec fn mat_abs(sx: Rat, sy: Rat) -> Mat {
    Mat {
        n0: sx.n * sy.d,
        n1: 0,
        n2: -(sx.d * sy.d),
        n3: 0,
        n4: sx.d * sy.n,
        n5: sx.d * sy.d,
        d: sx.d * sy.d,
    }
}

/// The cross products of two scalars' parts fit in `i64`: the machine-limit
/// precondition shared by the elementary-matrix constructors.
pub open spec fn cross_fits(x: Rat, y: Rat) -> bool {
    &&& int_in_i64(x.n * y.d)
    &&& int_in_i64(x.d * y.n)
    &&& int_in_i64(x.d * y.d)
    &&& int_in_i64(-(x.n * y.d))
    &&& int_in_i64(-(x.d * y.n))
    &&& int_in_i64(-(x.d * y.d))
}

/// Every product and partial sum of the matrix product `a * b` fits in `i64`:
/// the machine-limit precondition of composition.
pub open spec fn mat_mul_fits(a: Mat, b: Mat) -> bool {
    &&& int_in_i64(a.n0 * b.n0) && int_in_i64(a.n1 * b.n3) && int_in_i64(
        a.n0 * b.n0 + a.n1 * b.n3,
    )
    &&& int_in_i64(a.n0 * b.n1) && int_in_i64(a.n1 * b.n4) && int_in_i64(
        a.n0 * b.n1 + a.n1 * b.n4,
    )
    &&& int_in_i64(a.n0 * b.n2) && int_in_i64(a.n1 * b.n5) && int_in_i64(a.n2 * b.d)
    &&& int_in_i64(a.n0 * b.n2 + a.n1 * b.n5) && int_in_i64(a.n0 * b.n2 + a.n1 * b.n5 + a.n2 * b.d)
    &&& int_in_i64(a.n3 * b.n0) && int_in_i64(a.n4 * b.n3) && int_in_i64(
        a.n3 * b.n0 + a.n4 * b.n3,
    )
    &&& int_in_i64(a.n3 * b.n1) && int_in_i64(a.n4 * b.n4) && int_in_i64(
        a.n3 * b.n1 + a.n4 * b.n4,
    )
    &&& int_in_i64(a.n3 * b.n2) && int_in_i64(a.n4 * b.n5) && int_in_i64(a.n5 * b.d)
    &&& int_in_i64(a.n3 * b.n2 + a.n4 * b.n5) && int_in_i64(a.n3 * b.n2 + a.n4 * b.n5 + a.n5 * b.d)
    &&& int_in_i64(a.d * b.d)
}

/// A two-term dot product regroups: the core step of associativity.
proof fn lemma_dot2(a0: int, a1: int, b0: int, b1: int, b3: int, b4: int, c0: int, c3: int)
    ensures
        (a0 * b0 + a1 * b3) * c0 + (a0 * b1 + a1 * b4) * c3 == a0 * (b0 * c0 + b1 * c3) + a1 * (b3
            * c0 + b4 * c3),
{
    lemma_mul_is_distributive_add_other_way(c0, a0 * b0, a1 * b3);
    lemma_mul_is_distributive_add_other_way(c3, a0 * b1, a1 * b4);
    lemma_mul_is_associative(a0, b0, c0);
    lemma_mul_is_associative(a1, b3, c0);
    lemma_mul_is_associative(a0, b1, c3);
    lemma_mul_is_associative(a1, b4, c3);
    lemma_mul_is_distributive_add(a0, b0 * c0, b1 * c3);
    lemma_mul_is_distributive_add(a1, b3 * c0, b4 * c3);
}

/// The translation column regroups: the affine step of associativity.
proof fn lemma_dot3(
    a0: int,
    a1: int,
    a2: int,
    b0: int,
    b1: int,
    b2: int,
    b3: int,
    b4: int,
    b5: int,
    bd: int,
    c2: int,
    c5: int,
    cd: int,
)
    ensures
        (a0 * b0 + a1 * b3) * c2 + (a0 * b1 + a1 * b4) * c5 + (a0 * b2 + a1 * b5 + a2 * bd) * cd
            == a0 * (b0 * c2 + b1 * c5 + b2 * cd) + a1 * (b3 * c2 + b4 * c5 + b5 * cd) + a2 * (bd
            * cd),
{
    lemma_mul_is_distributive_add_other_way(c2, a0 * b0, a1 * b3);
    lemma_mul_is_distributive_add_other_way(c5, a0 * b1, a1 * b4);
    lemma_mul_is_distributive_add_other_way(cd, a0 * b2 + a1 * b5, a2 * bd);
    lemma_mul_is_distributive_add_other_way(cd, a0 * b2, a1 * b5);
    lemma_mul_is_associative(a0, b0, c2);
    lemma_mul_is_associative(a1, b3, c2);
    lemma_mul_is_associative(a0, b1, c5);
    lemma_mul_is_associative(a1, b4, c5);
    lemma_mul_is_associative(a0, b2, cd);
    lemma_mul_is_associative(a1, b5, cd);
    lemma_mul_is_associative(a2, bd, cd);
    lemma_mul_is_distributive_add(a0, b0 * c2 + b1 * c5, b2 * cd);
    lemma_mul_is_distributive_add(a0, b0 * c2, b1 * c5);
    lemma_mul_is_distributive_add(a1, b3 * c2 + b4 * c5, b5 * cd);
    lemma_mul_is_distributive_add(a1, b3 * c2, b4 * c5);
}

/// Matrix composition is associative, exactly.
pub proof fn lemma_mat_mul_assoc(a: Mat, b: Mat, c: Mat)
    ensures
        mat_mul(mat_mul(a, b), c) == mat_mul(a, mat_mul(b, c)),
{
    lemma_dot2(a.n0, a.n1, b.n0, b.n1, b.n3, b.n4, c.n0, c.n3);
    lemma_dot2(a.n0, a.n1, b.n0, b.n1, b.n3, b.n4, c.n1, c.n4);
    lemma_dot3(a.n0, a.n1, a.n2, b.n0, b.n1, b.n2, b.n3, b.n4, b.n5, b.d, c.n2, c.n5, c.d);
    lemma_dot2(a.n3, a.n4, b.n0, b.n1, b.n3, b.n4, c.n0, c.n3);
    lemma_dot2(a.n3, a.n4, b.n0, b.n1, b.n3, b.n4, c.n1, c.n4);
    lemma_dot3(a.n3, a.n4, a.n5, b.n0, b.n1, b.n2, b.n3, b.n4, b.n5, b.d, c.n2, c.n5, c.d);
    lemma_mul_is_associative(a.d, b.d, c.d);
}

/// The identity matrix is neutral on both sides, exactly.
pub proof fn lemma_mat_mul_identity(m: Mat)
    ensures
        mat_mul(mat_identity(), m) == m,
        mat_mul(m, mat_identity()) == m,
{
}

/// A product of four factors may be regrouped pairwise.
proof fn lemma_mul4_reorder(p: int, q: int, r: int, s: int)
    ensures
        (p * q) * (r * s) == (p * r) * (q * s),
{
    lemma_mul_is_associative(p * q, r, s);
    lemma_mul_is_associative(p, q, r);
    lemma_mul_is_commutative(q, r);
    lemma_mul_is_associative(p, r, q);
    lemma_mul_is_associative(p * r, q, s);
}

/// Composing two translations yields the translation by the component-wise
/// sums: chained translations add.
pub proof fn lemma_translate_compose(x1: Rat, y1: Rat, x2: Rat, y2: Rat)
    ensures
        mat_mul(mat_translate(x1, y1), mat_translate(x2, y2)) == mat_translate(
            rat_add(x1, x2),
            rat_add(y1, y2),
        ),
{
    lemma_mul4_reorder(x1.d, y1.d, x2.d, y2.d);
    lemma_mul4_reorder(x1.n, y1.d, x2.d, y2.d);
    lemma_mul4_reorder(x1.d, y1.d, x2.n, y2.d);
    lemma_mul4_reorder(x1.d, y1.d, x2.d, y2.n);
    lemma_mul4_reorder(x1.d, y1.n, x2.d, y2.d);
    lemma_mul_is_commutative(x1.d, x2.n);
    lemma_mul_is_commutative(y1.d, y2.n);
    lemma_mul_is_distributive_add_other_way(y1.d * y2.d, x1.n * x2.d, x2.n * x1.d);
    lemma_mul_is_distributive_add(x1.d * x2.d, y1.n * y2.d, y2.n * y1.d);
    lemma_mul_basics(x1.d * y1.d);
    lemma_mul_basics(x2.d * y2.d);
    lemma_mul_basics(x2.n * y2.d);
    lemma_mul_basics(x2.d * y2.n);
    let p = mat_mul(mat_translate(x1, y1), mat_translate(x2, y2));
    let t = mat_translate(rat_add(x1, x2), rat_add(y1, y2));
    assert(p =~= t);
}

/// Chained translations add, starting from the identity transform:
/// `identity * T(x1, y1) * T(x2, y2)` is exactly `T(x1 + x2, y1 + y2)`.
pub proof fn lemma_translate_chain(x1: Rat, y1: Rat, x2: Rat, y2: Rat)
    ensures
        mat_mul(mat_mul(mat_identity(), mat_translate(x1, y1)), mat_translate(x2, y2))
            == mat_translate(rat_add(x1, x2), rat_add(y1, y2)),
{
    lemma_mat_mul_identity(mat_translate(x1, y1));
    lemma_translate_compose(x1, y1, x2, y2);
}

/// An exact 2x3 affine matrix: six numerators over one positive denominator.
#[derive(Clone, Copy, PartialEq, Eq, Structural, Debug)]
pub struct Matrix2d {
    pub n0: i64,
    pub n1: i64,
    pub n2: i64,
    pub n3: i64,
    pub n4: i64,
    pub n5: i64,
    pub d: i64,
}

impl View for Matrix2d {
    type V = Mat;

    open spec fn view(&self) -> Mat {
        Mat {
            n0: self.n0 as int,
            n1: self.n1 as int,
            n2: self.n2 as int,
            n3: self.n3 as int,
            n4: self.n4 as int,
            n5: self.n5 as int,
            d: self.d as int,
        }
    }
}

/// Multiplies two machine integers whose exact product fits.
fn mul64(x: i64, y: i64) -> (r: i64)
    requires
        int_in_i64((x as int) * (y as int)),
    ensures
        r as int == (x as int) * (y as int),
{
    proof {
        lemma_i64_mul_fits_i128(x as int, y as int);
    }
    ((x as i128) * (y as i128)) as i64
}

impl Matrix2d {
    /// A well-formed matrix has a positive denominator.
    pub open spec fn wf(self) -> bool {
        self.d > 0
    }

    /// The identity transform.
    pub fn identity() -> (r: Matrix2d)
        ensures
            r@ == mat_identity(),
            r.wf(),
    {
        Matrix2d { n0: 1, n1: 0, n2: 0, n3: 0, n4: 1, n5: 0, d: 1 }
    }

    /// Entry `i` of the matrix (row-major `[a b tx; c d ty]`), as a scalar.
    pub fn get(&self, i: usize) -> (r: Scalar)
        requires
            i < 6,
            self.wf(),
        ensures
            r@ == mat_entry(self@, i as int),
            r.wf(),
    {
        let n: i64 = if i == 0 {
            self.n0
        } else if i == 1 {
            self.n1
        } else if i == 2 {
            self.n2
        } else if i == 3 {
            self.n3
        } else if i == 4 {
            self.n4
        } else {
            self.n5
        };
        Scalar { num: n, den: self.d }
    }

    /// The product `self * b`: apply `b`, then `self`.
    pub fn multiply(&self, b: &Matrix2d) -> (r: Matrix2d)
        requires
            self.wf(),
            b.wf(),
            mat_mul_fits(self@, b@),
        ensures
            r@ == mat_mul(self@, b@),
            r.wf(),
    {
        proof {
            lemma_mul_signs(self.d as int, b.d as int);
        }
        Matrix2d {
            n0: mul64(self.n0, b.n0) + mul64(self.n1, b.n3),
            n1: mul64(self.n0, b.n1) + mul64(self.n1, b.n4),
            n2: mul64(self.n0, b.n2) + mul64(self.n1, b.n5) + mul64(self.n2, b.d),
            n3: mul64(self.n3, b.n0) + mul64(self.n4, b.n3),
            n4: mul64(self.n3, b.n1) + mul64(self.n4, b.n4),
            n5: mul64(self.n3, b.n2) + mul64(self.n4, b.n5) + mul64(self.n5, b.d),
            d: mul64(self.d, b.d),
        }
    }

    /// The translation matrix `[1 0 x; 0 1 y]`.
    pub fn translated(x: Scalar, y: Scalar) -> (r: Matrix2d)
        requires
            x.wf(),
            y.wf(),
            cross_fits(x@, y@),
        ensures
            r@ == mat_translate(x@, y@),
            r.wf(),
    {
        proof {
            lemma_mul_signs(x.den as int, y.den as int);
        }
        let dd: i64 = mul64(x.den, y.den);
        Matrix2d {
            n0: dd,
            n1: 0,
            n2: mul64(x.num, y.den),
            n3: 0,
            n4: dd,
            n5: mul64(x.den, y.num),
            d: dd,
        }
    }

    /// The scale matrix `[sx 0 0; 0 sy 0]`.
    pub fn scaled(sx: Scalar, sy: Scalar) -> (r: Matrix2d)
        requires
            sx.wf(),
            sy.wf(),
            cross_fits(sx@, sy@),
        ensures
            r@ == mat_scale(sx@, sy@),
            r.wf(),
    {
        proof {
            lemma_mul_signs(sx.den as int, sy.den as int);
        }
        Matrix2d {
            n0: mul64(sx.num, sy.den),
            n1: 0,
            n2: 0,
            n3: 0,
            n4: mul64(sx.den, sy.num),
            n5: 0,
            d: mul64(sx.den, sy.den),
        }
    }

    /// The shear matrix `[1 sx 0; sy 1 0]`.
    pub fn sheared(sx: Scalar, sy: Scalar) -> (r: Matrix2d)
        requires
            sx.wf(),
            sy.wf(),
            cross_fits(sx@, sy@),
        ensures
            r@ == mat_shear(sx@, sy@),
            r.wf(),
    {
        proof {
            lemma_mul_signs(sx.den as int, sy.den as int);
        }
        let dd: i64 = mul64(sx.den, sy.den);
        Matrix2d {
            n0: dd,
            n1: mul64(sx.num, sy.den),
            n2: 0,
            n3: mul64(sx.den, sy.num),
            n4: dd,
            n5: 0,
            d: dd,
        }
    }

    /// The rotation matrix `[c -s 0; s c 0]` for a given cosine and sine.
    ///
    /// Rotation by an angle that is not a quarter turn has an irrational
    /// cosine, which no exact scalar can hold, so the general rotation takes
    /// the cosine and sine as inputs.
    pub fn rotation_cs(c: Scalar, s: Scalar) -> (r: Matrix2d)
        requires
            c.wf(),
            s.wf(),
            cross_fits(c@, s@),
        ensures
            r@ == mat_rot_cs(c@, s@),
            r.wf(),
    {
        proof {
            lemma_mul_signs(c.den as int, s.den as int);
            lemma_mul_is_commutative(c@.d, s@.n);
        }
        Matrix2d {
            n0: mul64(c.num, s.den),
            n1: -mul64(s.num, c.den),
            n2: 0,
            n3: mul64(s.num, c.den),
            n4: mul64(c.num, s.den),
            n5: 0,
            d: mul64(c.den, s.den),
        }
    }

    /// Rotation by a whole number of degrees, exact for multiples of 90.
    pub fn rotation_deg(deg: i64) -> (r: Matrix2d)
        requires
            deg as int % 90 == 0,
        ensures
            r@ == mat_rot_deg(deg as int),
            r.wf(),
    {
        let m: i64 = if deg >= 0 {
            deg % 360
        } else {
            let t: i64 = deg % 360;
            if t == 0 {
                0
            } else {
                t + 360
            }
        };
        proof {
            lemma_rem_euclid(deg as int, m as int);
        }
        if m == 0 {
            Matrix2d { n0: 1, n1: 0, n2: 0, n3: 0, n4: 1, n5: 0, d: 1 }
        } else if m == 90 {
            Matrix2d { n0: 0, n1: -1, n2: 0, n3: 1, n4: 0, n5: 0, d: 1 }
        } else if m == 180 {
            Matrix2d { n0: -1, n1: 0, n2: 0, n3: 0, n4: -1, n5: 0, d: 1 }
        } else {
            Matrix2d { n0: 0, n1: 1, n2: 0, n3: -1, n4: 0, n5: 0, d: 1 }
        }
    }

    /// Mirror about the y axis.
    pub fn flip_h_matrix() -> (r: Matrix2d)
        ensures
            r@ == mat_flip_h(),
            r.wf(),
    {
        Matrix2d { n0: -1, n1: 0, n2: 0, n3: 0, n4: 1, n5: 0, d: 1 }
    }

    /// Mirror about the x axis.
    pub fn flip_v_matrix() -> (r: Matrix2d)
        ensures
            r@ == mat_flip_v(),
            r.wf(),
    {
        Matrix2d { n0: 1, n1: 0, n2: 0, n3: 0, n4: -1, n5: 0, d: 1 }
    }

    /// The absolute-coordinate view matrix `[sx 0 -1; 0 sy 1]`.
    pub fn abs_map(sx: Scalar, sy: Scalar) -> (r: Matrix2d)
        requires
            sx.wf(),
            sy.wf(),
            cross_fits(sx@, sy@),
        ensures
            r@ == mat_abs(sx@, sy@),
            r.wf(),
    {
        proof {
            lemma_mul_signs(sx.den as int, sy.den as int);
        }
        let dd: i64 = mul64(sx.den, sy.den);
        Matrix2d {
            n0: mul64(sx.num, sy.den),
            n1: 0,
            n2: -dd,
            n3: 0,
            n4: mul64(sx.den, sy.num),
            n5: dd,
            d: dd,
        }
    }
}

/// Bridges the truncating remainder computed in executable code to the
/// euclidean remainder the specification uses.
proof fn lemma_rem_euclid(deg: int, m: int)
    requires
        deg >= 0 ==> m == deg % 360,
        deg < 0 ==> {
            let t = -((-deg) % 360);
            m == if t == 0 {
                0int
            } else {
                t + 360
            }
        },
    ensures
        m == deg % 360,
{
    if deg < 0 {
        let u = -deg;
        vstd::arithmetic::div_mod::lemma_fundamental_div_mod(u, 360);
        vstd::arithmetic::div_mod::lemma_fundamental_div_mod(deg, 360);
        let r = u % 360;
        let e = deg % 360;
        assert(0 <= r < 360);
        assert(0 <= e < 360);
        assert(u == 360 * (u / 360) + r);
        assert(deg == 360 * (deg / 360) + e);
        assert(r + e == 360 * (-(u / 360) - (deg / 360)));
        let k = -(u / 360) - (deg / 360);
        assert(0 <= 360 * k < 720);
        assert(k == 0 || k == 1);
    }
}

} // verus!
