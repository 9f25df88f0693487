//! Exact rational scalars.
//!
//! Every coordinate, transform entry and color component in this library is a
//! rational number `num / den` with a positive denominator. Arithmetic is
//! exact: each operation's contract gives the resulting numerator and
//! denominator precisely, so the transform and color algebra built on top can
//! be specified without rounding. Operations that multiply components require
//! that the exact result still fits in the machine representation.

use vstd::prelude::*;

verus! {

/// The mathematical value of a scalar: a pair of unbounded integers.
#[verifier::ext_equal]
pub ghost struct Rat {
    pub n: int,
    pub d: int,
}

/// Whether `x` fits in an `i64`.
pub open spec fn int_in_i64(x: int) -> bool {
    i64::MIN as int <= x && x <= i64::MAX as int
}

/// A well-formed rational has a positive denominator.
pub open spec fn rat_wf(a: Rat) -> bool {
    a.d > 0
}

pub open spec fn rat_from_int(n: int) -> Rat {
    Rat { n: n, d: 1 }
}

pub open spec fn rat_zero() -> Rat {
    Rat { n: 0, d: 1 }
}

pub open spec fn rat_one() -> Rat {
    Rat { n: 1, d: 1 }
}

/// Two rationals denote the same number: cross products agree.
pub open spec fn rat_eq(a: Rat, b: Rat) -> bool {
    a.n * b.d == b.n * a.d
}

pub open spec fn rat_add(a: Rat, b: Rat) -> Rat {
    Rat { n: a.n * b.d + b.n * a.d, d: a.d * b.d }
}

pub open spec fn rat_sub(a: Rat, b: Rat) -> Rat {
    Rat { n: a.n * b.d - b.n * a.d, d: a.d * b.d }
}

pub open spec fn rat_mul(a: Rat, b: Rat) -> Rat {
    Rat { n: a.n * b.n, d: a.d * b.d }
}

pub open spec fn rat_neg(a: Rat) -> Rat {
    Rat { n: -a.n, d: a.d }
}

/// The quotient `a / b`, with the sign moved into the numerator so the
/// denominator stays positive.
pub open spec fn rat_div(a: Rat, b: Rat) -> Rat {
    if b.n >= 0 {
        Rat { n: a.n * b.d, d: a.d * b.n }
    } else {
        Rat { n: -(a.n * b.d), d: -(a.d * b.n) }
    }
}

/// The exact sum has machine-representable components.
pub open spec fn rat_add_fits(a: Rat, b: Rat) -> bool {
    &&& int_in_i64(a.n * b.d)
    &&& int_in_i64(b.n * a.d)
    &&& int_in_i64(a.n * b.d + b.n * a.d)
    &&& int_in_i64(a.d * b.d)
}

/// The exact difference has machine-representable components.
pub open spec fn rat_sub_fits(a: Rat, b: Rat) -> bool {
    &&& int_in_i64(a.n * b.d)
    &&& int_in_i64(b.n * a.d)
    &&& int_in_i64(a.n * b.d - b.n * a.d)
    &&& int_in_i64(a.d * b.d)
}

/// The exact product has machine-representable components.
pub open spec fn rat_mul_fits(a: Rat, b: Rat) -> bool {
    &&& int_in_i64(a.n * b.n)
    &&& int_in_i64(a.d * b.d)
}

/// The exact quotient has machine-representable components.
pub open spec fn rat_div_fits(a: Rat, b: Rat) -> bool {
    if b.n >= 0 {
        int_in_i64(a.n * b.d) && int_in_i64(a.d * b.n)
    } else {
        int_in_i64(-(a.n * b.d)) && int_in_i64(-(a.d * b.n))
    }
}

/// The product of two `i64`-sized values fits comfortably in an `i128`.
pub proof fn lemma_i64_mul_fits_i128(a: int, b: int)
    requires
        int_in_i64(a),
        int_in_i64(b),
    ensures
        i128::MIN as int <= a * b <= i128::MAX as int,
{
    assert(i128::MIN as int <= a * b <= i128::MAX as int) by (nonlinear_arith)
        requires
            int_in_i64(a),
            int_in_i64(b),
    ;
}

/// Sign facts about products.
pub proof fn lemma_mul_signs(a: int, b: int)
    ensures
        a > 0 && b > 0 ==> a * b > 0,
        a > 0 && b < 0 ==> a * b < 0,
        a < 0 && b < 0 ==> a * b > 0,
{
    assert(a > 0 && b > 0 ==> a * b > 0) by (nonlinear_arith);
    assert(a > 0 && b < 0 ==> a * b < 0) by (nonlinear_arith);
    assert(a < 0 && b < 0 ==> a * b > 0) by (nonlinear_arith);
}

/// An exact rational scalar: `num / den` with `den > 0`.
#[derive(Clone, Copy, PartialEq, Eq, Structural, Debug)]
pub struct Scalar {
    pub num: i64,
    pub den: i64,
}

impl View for Scalar {
    type V = Rat;

    open spec fn view(&self) -> Rat {
        Rat { n: self.num as int, d: self.den as int }
    }
}

impl Scalar {
    /// A well-formed scalar has a positive denominator.
    pub open spec fn wf(self) -> bool {
        self.den > 0
    }

    /// The integer `n` as a scalar.
    pub fn from_int(n: i64) -> (r: Scalar)
        ensures
            r@ == rat_from_int(n as int),
            r.wf(),
    {
        Scalar { num: n, den: 1 }
    }

    /// Zero.
    pub fn zero() -> (r: Scalar)
        ensures
            r@ == rat_zero(),
            r.wf(),
    {
        Scalar { num: 0, den: 1 }
    }

    /// One.
    pub fn one() -> (r: Scalar)
        ensures
            r@ == rat_one(),
            r.wf(),
    {
        Scalar { num: 1, den: 1 }
    }

    /// The fraction `num / den`, normalized so the denominator is positive.
    pub fn new(num: i64, den: i64) -> (r: Scalar)
        requires
            den != 0,
            num > i64::MIN,
            den > i64::MIN,
        ensures
            r.wf(),
            rat_eq(r@, Rat { n: num as int, d: den as int }),
            den > 0 ==> r@ == (Rat { n: num as int, d: den as int }),
    {
        if den > 0 {
            Scalar { num, den }
        } else {
            proof {
                assert((-num as int) * (den as int) == (num as int) * (-den as int))
                    by (nonlinear_arith);
            }
            Scalar { num: -num, den: -den }
        }
    }

    /// Exact addition.
    pub fn add(self, o: Scalar) -> (r: Scalar)
        requires
            self.wf(),
            o.wf(),
            rat_add_fits(self@, o@),
        ensures
            r@ == rat_add(self@, o@),
            r.wf(),
    {
        proof {
            lemma_i64_mul_fits_i128(self.num as int, o.den as int);
            lemma_i64_mul_fits_i128(o.num as int, self.den as int);
            lemma_i64_mul_fits_i128(self.den as int, o.den as int);
            lemma_mul_signs(self.den as int, o.den as int);
        }
        let p: i128 = (self.num as i128) * (o.den as i128);
        let q: i128 = (o.num as i128) * (self.den as i128);
        let d: i128 = (self.den as i128) * (o.den as i128);
        Scalar { num: (p + q) as i64, den: d as i64 }
    }

    /// Exact subtraction.
    pub fn sub(self, o: Scalar) -> (r: Scalar)
        requires
            self.wf(),
            o.wf(),
            rat_sub_fits(self@, o@),
        ensures
            r@ == rat_sub(self@, o@),
            r.wf(),
    {
        proof {
            lemma_i64_mul_fits_i128(self.num as int, o.den as int);
            lemma_i64_mul_fits_i128(o.num as int, self.den as int);
            lemma_i64_mul_fits_i128(self.den as int, o.den as int);
            lemma_mul_signs(self.den as int, o.den as int);
        }
        let p: i128 = (self.num as i128) * (o.den as i128);
        let q: i128 = (o.num as i128) * (self.den as i128);
        let d: i128 = (self.den as i128) * (o.den as i128);
        Scalar { num: (p - q) as i64, den: d as i64 }
    }

    /// Exact multiplication.
    pub fn mul(self, o: Scalar) -> (r: Scalar)
        requires
            self.wf(),
            o.wf(),
            rat_mul_fits(self@, o@),
        ensures
            r@ == rat_mul(self@, o@),
            r.wf(),
    {
        proof {
            lemma_i64_mul_fits_i128(self.num as int, o.num as int);
            lemma_i64_mul_fits_i128(self.den as int, o.den as int);
            lemma_mul_signs(self.den as int, o.den as int);
        }
        let n: i128 = (self.num as i128) * (o.num as i128);
        let d: i128 = (self.den as i128) * (o.den as i128);
        Scalar { num: n as i64, den: d as i64 }
    }

    /// Exact negation.
    pub fn neg(self) -> (r: Scalar)
        requires
            self.wf(),
            int_in_i64(-self@.n),
        ensures
            r@ == rat_neg(self@),
            r.wf(),
    {
        Scalar { num: -self.num, den: self.den }
    }

    /// Exact division.
    pub fn div(self, o: Scalar) -> (r: Scalar)
        requires
            self.wf(),
            o.wf(),
            o@.n != 0,
            rat_div_fits(self@, o@),
        ensures
            r@ == rat_div(self@, o@),
            r.wf(),
    {
        proof {
            lemma_i64_mul_fits_i128(self.num as int, o.den as int);
            lemma_i64_mul_fits_i128(o.num as int, self.den as int);
            lemma_i64_mul_fits_i128(self.den as int, o.den as int);
            lemma_mul_signs(self.den as int, o.den as int);
        }
        proof {
            lemma_i64_mul_fits_i128(self.num as int, o.den as int);
            lemma_i64_mul_fits_i128(self.den as int, o.num as int);
            lemma_mul_signs(self.den as int, o.num as int);
        }
        let p: i128 = (self.num as i128) * (o.den as i128);
        let q: i128 = (self.den as i128) * (o.num as i128);
        if o.num >= 0 {
            Scalar { num: p as i64, den: q as i64 }
        } else {
            Scalar { num: (-p) as i64, den: (-q) as i64 }
        }
    }

    /// Whether this scalar denotes zero.
    pub fn is_zero(self) -> (r: bool)
        requires
            self.wf(),
        ensures
            r == (self@.n == 0),
    {
        self.num == 0
    }

    /// Whether two scalars denote the same number.
    pub fn eqv(self, o: Scalar) -> (r: bool)
        requires
            self.wf(),
            o.wf(),
        ensures
            r == rat_eq(self@, o@),
    {
        proof {
            lemma_i64_mul_fits_i128(self.num as int, o.den as int);
            lemma_i64_mul_fits_i128(o.num as int, self.den as int);
        }
        (self.num as i128) * (o.den as i128) == (o.num as i128) * (self.den as i128)
    }
}

} // verus!
