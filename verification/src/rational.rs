//! Exact rational arithmetic.
//!
//! The view transform needs a scale and an offset whose forward and inverse
//! mappings invert each other exactly, so the crate works with unreduced
//! fractions instead of floating point.  `Rat` is the mathematical model
//! (unbounded integers, specification only); `Frac` is the executable
//! fraction with `i64` parts and a positive denominator.  Executable
//! operations are checked: they return `None` exactly when the unreduced
//! result does not fit in `i64` parts.

use vstd::prelude::*;

verus! {

/// A rational number kept as an unreduced fraction of unbounded integers.
/// Specification-only; two values denote the same rational when `rat_eq`
/// holds, which compares by cross-multiplication.
pub struct Rat {
    pub num: int,
    pub den: int,
}

/// A well-formed rational keeps its denominator positive.
pub open spec fn rat_wf(a: Rat) -> bool {
    a.den > 0
}

/// Equality of the rationals denoted by two fractions: a.num/a.den == b.num/b.den.
pub open spec fn rat_eq(a: Rat, b: Rat) -> bool {
    a.num * b.den == b.num * a.den
}

pub open spec fn rat_add(a: Rat, b: Rat) -> Rat {
    Rat { num: a.num * b.den + b.num * a.den, den: a.den * b.den }
}

pub open spec fn rat_sub(a: Rat, b: Rat) -> Rat {
    Rat { num: a.num * b.den - b.num * a.den, den: a.den * b.den }
}

pub open spec fn rat_mul(a: Rat, b: Rat) -> Rat {
    Rat { num: a.num * b.num, den: a.den * b.den }
}

/// Quotient a / b for a divisor with positive numerator, which is the only
/// shape of division the view transform needs (the scale is positive).
pub open spec fn rat_div(a: Rat, b: Rat) -> Rat
    recommends
        rat_wf(a),
        rat_wf(b),
        b.num > 0,
{
    Rat { num: a.num * b.den, den: a.den * b.num }
}

pub open spec fn rat_le(a: Rat, b: Rat) -> bool
    recommends
        rat_wf(a),
        rat_wf(b),
{
    a.num * b.den <= b.num * a.den
}

pub open spec fn rat_of_int(n: int) -> Rat {
    Rat { num: n, den: 1 }
}

pub open spec fn fits_i64(n: int) -> bool {
    i64::MIN <= n <= i64::MAX
}

/// Both parts of the unreduced fraction fit in `i64`.
pub open spec fn rat_fits(a: Rat) -> bool {
    fits_i64(a.num) && fits_i64(a.den)
}

/// Executable exact fraction: `num / den` with `den > 0`.
#[derive(Clone, Copy, Debug)]
pub struct Frac {
    num: i64,
    den: i64,
}

impl View for Frac {
    type V = Rat;

    closed spec fn view(&self) -> Rat {
        Rat { num: self.num as int, den: self.den as int }
    }
}

proof fn lemma_i64_prod_bound(a: int, b: int)
    by (nonlinear_arith)
    requires
        -0x8000_0000_0000_0000 <= a <= 0x7fff_ffff_ffff_ffff,
        -0x8000_0000_0000_0000 <= b <= 0x7fff_ffff_ffff_ffff,
    ensures
        -0x4000_0000_0000_0000_0000_0000_0000_0000 <= a * b,
        a * b <= 0x4000_0000_0000_0000_0000_0000_0000_0000,
{
}

proof fn lemma_i64_prod_den_bound(a: int, b: int)
    by (nonlinear_arith)
    requires
        -0x8000_0000_0000_0000 <= a <= 0x7fff_ffff_ffff_ffff,
        0 < b <= 0x7fff_ffff_ffff_ffff,
    ensures
        -0x3fff_ffff_ffff_ffff_8000_0000_0000_0000 <= a * b,
        a * b <= 0x3fff_ffff_ffff_ffff_8000_0000_0000_0000,
{
}

/// The parts of an executable fraction always fit in `i64`.
pub proof fn lemma_frac_fits(f: Frac)
    ensures
        rat_fits(f@),
{
}

/// A product of positive integers is positive.
pub proof fn lemma_pos_prod(a: int, b: int)
    by (nonlinear_arith)
    requires
        a > 0,
        b > 0,
    ensures
        a * b > 0,
{
}

/// Bounds of a product of non-negative integers.
pub proof fn lemma_prod_bounds(a: int, b: int, m: int, n: int)
    by (nonlinear_arith)
    requires
        0 <= a <= m,
        0 <= b <= n,
    ensures
        0 <= a * b <= m * n,
{
}

impl Frac {
    pub open spec fn wf(self) -> bool {
        rat_wf(self@)
    }

    pub fn new(num: i64, den: i64) -> (r: Self)
        requires
            den > 0,
        ensures
            r@ == (Rat { num: num as int, den: den as int }),
            r.wf(),
    {
        Frac { num, den }
    }

    pub fn from_int(n: i64) -> (r: Self)
        ensures
            r@ == rat_of_int(n as int),
            r.wf(),
    {
        Frac { num: n, den: 1 }
    }

    /// Exact sum, or `None` when the unreduced sum does not fit in `i64` parts.
    pub fn checked_add(self, rhs: Self) -> (r: Option<Self>)
        requires
            self.wf(),
            rhs.wf(),
        ensures
            r is Some <==> rat_fits(rat_add(self@, rhs@)),
            r matches Some(v) ==> v@ == rat_add(self@, rhs@) && v.wf(),
    {
        proof {
            lemma_i64_prod_den_bound(self.num as int, rhs.den as int);
            lemma_i64_prod_den_bound(rhs.num as int, self.den as int);
            lemma_i64_prod_den_bound(self.den as int, rhs.den as int);
            lemma_pos_prod(self.den as int, rhs.den as int);
        }
        let n: i128 = self.num as i128 * rhs.den as i128 + rhs.num as i128 * self.den as i128;
        let d: i128 = self.den as i128 * rhs.den as i128;
        if n >= i64::MIN as i128 && n <= i64::MAX as i128 && d <= i64::MAX as i128 {
            Some(Frac { num: n as i64, den: d as i64 })
        } else {
            None
        }
    }

    /// Exact difference, or `None` when the unreduced difference does not fit.
    pub fn checked_sub(self, rhs: Self) -> (r: Option<Self>)
        requires
            self.wf(),
            rhs.wf(),
        ensures
            r is Some <==> rat_fits(rat_sub(self@, rhs@)),
            r matches Some(v) ==> v@ == rat_sub(self@, rhs@) && v.wf(),
    {
        proof {
            lemma_i64_prod_den_bound(self.num as int, rhs.den as int);
            lemma_i64_prod_den_bound(rhs.num as int, self.den as int);
            lemma_i64_prod_den_bound(self.den as int, rhs.den as int);
            lemma_pos_prod(self.den as int, rhs.den as int);
        }
        let n: i128 = self.num as i128 * rhs.den as i128 - rhs.num as i128 * self.den as i128;
        let d: i128 = self.den as i128 * rhs.den as i128;
        if n >= i64::MIN as i128 && n <= i64::MAX as i128 && d <= i64::MAX as i128 {
            Some(Frac { num: n as i64, den: d as i64 })
        } else {
            None
        }
    }

    /// Exact product, or `None` when the unreduced product does not fit.
    pub fn checked_mul(self, rhs: Self) -> (r: Option<Self>)
        requires
            self.wf(),
            rhs.wf(),
        ensures
            r is Some <==> rat_fits(rat_mul(self@, rhs@)),
            r matches Some(v) ==> v@ == rat_mul(self@, rhs@) && v.wf(),
    {
        proof {
            lemma_i64_prod_bound(self.num as int, rhs.num as int);
            lemma_i64_prod_den_bound(self.den as int, rhs.den as int);
            lemma_pos_prod(self.den as int, rhs.den as int);
        }
        let n: i128 = self.num as i128 * rhs.num as i128;
        let d: i128 = self.den as i128 * rhs.den as i128;
        if n >= i64::MIN as i128 && n <= i64::MAX as i128 && d <= i64::MAX as i128 {
            Some(Frac { num: n as i64, den: d as i64 })
        } else {
            None
        }
    }

    /// Exact quotient by a positive fraction, or `None` when the unreduced
    /// quotient does not fit.
    pub fn checked_div(self, rhs: Self) -> (r: Option<Self>)
        requires
            self.wf(),
            rhs.wf(),
            rhs@.num > 0,
        ensures
            r is Some <==> rat_fits(rat_div(self@, rhs@)),
            r matches Some(v) ==> v@ == rat_div(self@, rhs@) && v.wf(),
    {
        proof {
            lemma_i64_prod_den_bound(self.num as int, rhs.den as int);
            lemma_i64_prod_den_bound(self.den as int, rhs.num as int);
            lemma_pos_prod(self.den as int, rhs.num as int);
        }
        let n: i128 = self.num as i128 * rhs.den as i128;
        let d: i128 = self.den as i128 * rhs.num as i128;
        if n >= i64::MIN as i128 && n <= i64::MAX as i128 && d <= i64::MAX as i128 {
            Some(Frac { num: n as i64, den: d as i64 })
        } else {
            None
        }
    }

    /// Exact order test on the denoted rationals.
    pub fn le(self, rhs: Self) -> (r: bool)
        requires
            self.wf(),
            rhs.wf(),
        ensures
            r == rat_le(self@, rhs@),
    {
        proof {
            lemma_i64_prod_den_bound(self.num as int, rhs.den as int);
            lemma_i64_prod_den_bound(rhs.num as int, self.den as int);
        }
        self.num as i128 * rhs.den as i128 <= rhs.num as i128 * self.den as i128
    }

    /// Exact equality test on the denoted rationals.
    pub fn eq_rat(self, rhs: Self) -> (r: bool)
        requires
            self.wf(),
            rhs.wf(),
        ensures
            r == rat_eq(self@, rhs@),
    {
        proof {
            lemma_i64_prod_den_bound(self.num as int, rhs.den as int);
            lemma_i64_prod_den_bound(rhs.num as int, self.den as int);
        }
        self.num as i128 * rhs.den as i128 == rhs.num as i128 * self.den as i128
    }

    /// The smaller of the two denoted rationals (the receiver when equal).
    pub fn min(self, rhs: Self) -> (r: Self)
        requires
            self.wf(),
            rhs.wf(),
        ensures
            r == (if rat_le(self@, rhs@) { self } else { rhs }),
            r.wf(),
    {
        if self.le(rhs) {
            self
        } else {
            rhs
        }
    }

    /// Whether the denoted rational is negative.
    pub fn is_negative(self) -> (r: bool)
        requires
            self.wf(),
        ensures
            r == (self@.num < 0),
    {
        self.num < 0
    }

    /// Floor of a non-negative fraction, saturated at `u32::MAX`.
    pub fn floor_saturating(self) -> (r: u32)
        requires
            self.wf(),
            self@.num >= 0,
        ensures
            r == rat_floor_sat(self@),
    {
        let n: i128 = self.num as i128;
        let d: i128 = self.den as i128;
        let q: i128 = n / d;
        proof {
            lemma_nonneg_div(n as int, d as int);
        }
        if q > u32::MAX as i128 {
            u32::MAX
        } else {
            q as u32
        }
    }
}

/// Floor of a non-negative rational, saturated at `u32::MAX`.  This is how a
/// window-space cursor position, mapped into image space, turns into the
/// integer pixel coordinate that shape points and sampling use.
pub open spec fn rat_floor_sat(a: Rat) -> u32
    recommends
        rat_wf(a),
        a.num >= 0,
{
    if a.num / a.den > u32::MAX {
        u32::MAX
    } else {
        (a.num / a.den) as u32
    }
}

proof fn lemma_nonneg_div(n: int, d: int)
    by (nonlinear_arith)
    requires
        n >= 0,
        d > 0,
    ensures
        0 <= n / d <= n,
{
}

// ---------------------------------------------------------------------------
// Algebra of the denoted rationals.
//
// `rat_eq` is an equivalence on well-formed fractions, and the operations
// respect it; together with the two cancellation laws below this is all the
// view transform needs to show that its coordinate mappings invert each
// other and that zooming anchors the cursor.
// ---------------------------------------------------------------------------

pub proof fn lemma_rat_eq_trans(a: Rat, b: Rat, c: Rat)
    by (nonlinear_arith)
    requires
        rat_wf(a),
        rat_wf(b),
        rat_wf(c),
        rat_eq(a, b),
        rat_eq(b, c),
    ensures
        rat_eq(a, c),
{
}

pub proof fn lemma_wf_add(a: Rat, b: Rat)
    by (nonlinear_arith)
    requires
        rat_wf(a),
        rat_wf(b),
    ensures
        rat_wf(rat_add(a, b)),
{
}

pub proof fn lemma_wf_sub(a: Rat, b: Rat)
    by (nonlinear_arith)
    requires
        rat_wf(a),
        rat_wf(b),
    ensures
        rat_wf(rat_sub(a, b)),
{
}

pub proof fn lemma_wf_mul(a: Rat, b: Rat)
    by (nonlinear_arith)
    requires
        rat_wf(a),
        rat_wf(b),
    ensures
        rat_wf(rat_mul(a, b)),
{
}

pub proof fn lemma_wf_div(a: Rat, b: Rat)
    by (nonlinear_arith)
    requires
        rat_wf(a),
        rat_wf(b),
        b.num > 0,
    ensures
        rat_wf(rat_div(a, b)),
{
}

/// Replacing the left operand of an addition by an equal rational keeps the
/// sum equal.
pub proof fn lemma_add_cong_left(a: Rat, a2: Rat, b: Rat)
    by (nonlinear_arith)
    requires
        rat_wf(a),
        rat_wf(a2),
        rat_wf(b),
        rat_eq(a, a2),
    ensures
        rat_eq(rat_add(a, b), rat_add(a2, b)),
{
}

/// Replacing the right operand of a multiplication by an equal rational keeps
/// the product equal.
pub proof fn lemma_mul_cong_right(a: Rat, b: Rat, b2: Rat)
    by (nonlinear_arith)
    requires
        rat_wf(a),
        rat_wf(b),
        rat_wf(b2),
        rat_eq(b, b2),
    ensures
        rat_eq(rat_mul(a, b), rat_mul(a, b2)),
{
}

/// Replacing the dividend by an equal rational keeps the quotient equal.
pub proof fn lemma_div_cong_left(a: Rat, a2: Rat, s: Rat)
    by (nonlinear_arith)
    requires
        rat_wf(a),
        rat_wf(a2),
        rat_wf(s),
        s.num > 0,
        rat_eq(a, a2),
    ensures
        rat_eq(rat_div(a, s), rat_div(a2, s)),
{
}

/// Dividing by s and multiplying by s again gives the original rational back.
pub proof fn lemma_mul_div_cancel(a: Rat, s: Rat)
    by (nonlinear_arith)
    requires
        rat_wf(a),
        rat_wf(s),
        s.num > 0,
    ensures
        rat_eq(rat_mul(rat_div(a, s), s), a),
{
}

/// Subtracting o and adding o again gives the original rational back.
pub proof fn lemma_add_sub_cancel(w: Rat, o: Rat)
    by (nonlinear_arith)
    requires
        rat_wf(w),
        rat_wf(o),
    ensures
        rat_eq(rat_add(rat_sub(w, o), o), w),
{
}

/// Subtracting a difference: c - (o - m) equals (c - o) + m.
pub proof fn lemma_sub_sub(c: Rat, o: Rat, m: Rat)
    requires
        rat_wf(c),
        rat_wf(o),
        rat_wf(m),
    ensures
        rat_eq(rat_sub(c, rat_sub(o, m)), rat_add(rat_sub(c, o), m)),
{
    let l = rat_sub(c, rat_sub(o, m));
    let r = rat_add(rat_sub(c, o), m);
    assert(c.num * (o.den * m.den) - (o.num * m.den - m.num * o.den) * c.den == (c.num * o.den
        - o.num * c.den) * m.den + m.num * (c.den * o.den)) by (nonlinear_arith);
    assert(c.den * (o.den * m.den) == (c.den * o.den) * m.den) by (nonlinear_arith);
    assert(l.num == r.num);
    assert(l.den == r.den);
}

/// Multiplying by one-plus-a-ratio distributes: x + x * e equals x * (1 + e).
proof fn lemma_mul_distrib_one_plus(x: Rat, e: Rat)
    by (nonlinear_arith)
    requires
        rat_wf(x),
        rat_wf(e),
    ensures
        rat_eq(rat_add(x, rat_mul(x, e)), rat_mul(x, rat_add(rat_of_int(1), e))),
{
}

/// One plus the relative step (t - s) / s is the ratio t / s.
proof fn lemma_one_plus_ratio(s: Rat, t: Rat)
    by (nonlinear_arith)
    requires
        rat_wf(s),
        rat_wf(t),
        s.num > 0,
    ensures
        rat_eq(rat_add(rat_of_int(1), rat_div(rat_sub(t, s), s)), rat_div(t, s)),
{
}

/// Factoring the zoom step: x + x * ((t - s) / s) equals x * (t / s).
pub proof fn lemma_zoom_factor(x: Rat, s: Rat, t: Rat)
    requires
        rat_wf(x),
        rat_wf(s),
        rat_wf(t),
        s.num > 0,
    ensures
        rat_eq(rat_add(x, rat_mul(x, rat_div(rat_sub(t, s), s))), rat_mul(x, rat_div(t, s))),
{
    let e = rat_div(rat_sub(t, s), s);
    lemma_wf_sub(t, s);
    lemma_wf_div(rat_sub(t, s), s);
    lemma_wf_mul(x, e);
    lemma_wf_add(x, rat_mul(x, e));
    lemma_wf_add(rat_of_int(1), e);
    lemma_wf_mul(x, rat_add(rat_of_int(1), e));
    lemma_wf_div(t, s);
    lemma_wf_mul(x, rat_div(t, s));
    lemma_mul_distrib_one_plus(x, e);
    lemma_one_plus_ratio(s, t);
    lemma_mul_cong_right(x, rat_add(rat_of_int(1), e), rat_div(t, s));
    lemma_rat_eq_trans(
        rat_add(x, rat_mul(x, e)),
        rat_mul(x, rat_add(rat_of_int(1), e)),
        rat_mul(x, rat_div(t, s)),
    );
}

/// Dividing x * (t / s) by t collapses to x / s.
pub proof fn lemma_div_mul_div(x: Rat, s: Rat, t: Rat)
    requires
        rat_wf(x),
        rat_wf(s),
        rat_wf(t),
        s.num > 0,
        t.num > 0,
    ensures
        rat_eq(rat_div(rat_mul(x, rat_div(t, s)), t), rat_div(x, s)),
{
    let l = rat_div(rat_mul(x, rat_div(t, s)), t);
    let r = rat_div(x, s);
    let a: int = x.num * s.den;
    let b: int = x.den * s.num;
    let c: int = t.num * t.den;
    assert((x.num * (t.num * s.den)) * t.den == (x.num * s.den) * (t.num * t.den))
        by (nonlinear_arith);
    assert((x.den * (t.den * s.num)) * t.num == (x.den * s.num) * (t.num * t.den))
        by (nonlinear_arith);
    assert((a * c) * b == a * (b * c)) by (nonlinear_arith);
    assert(l.num * r.den == (a * c) * b);
    assert(r.num * l.den == a * (b * c));
}

} // verus!
