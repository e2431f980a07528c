//! Complex numbers over fixed-point components: sum, difference, product,
//! squared magnitude and reciprocal.

use vstd::prelude::*;
use crate::fixed::abs;
use crate::fixed::fits;
use crate::fixed::lemma_product_bounds;
use crate::fixed::lemma_trunc_div_error;
use crate::fixed::mul_raw;
use crate::fixed::mul_wide;
use crate::fixed::narrow;
use crate::fixed::scale;
use crate::fixed::trunc_div;
use crate::fixed::Fixed;

verus! {

/// A complex number as a pair of raw values of any size.
pub struct ComplexSpec {
    pub re: int,
    pub im: int,
}

/// A complex number with fixed-point real and imaginary parts.
#[derive(Clone, Copy, Debug, PartialEq, Eq, Structural)]
pub struct Complex {
    pub re: Fixed,
    pub im: Fixed,
}

impl View for Complex {
    type V = ComplexSpec;

    open spec fn view(&self) -> ComplexSpec {
        ComplexSpec { re: self.re@, im: self.im@ }
    }
}

/// Whether both parts can be stored.
pub open spec fn complex_fits(a: ComplexSpec) -> bool {
    fits(a.re) && fits(a.im)
}

/// The number itself where both parts can be stored, and nothing otherwise.
pub open spec fn storable(a: ComplexSpec) -> Option<ComplexSpec> {
    if complex_fits(a) {
        Some(a)
    } else {
        None
    }
}

/// The stored number with the given parts, which have to be storable.
pub open spec fn stored(a: ComplexSpec) -> Complex
    recommends
        complex_fits(a),
{
    Complex { re: Fixed { raw: a.re as i64 }, im: Fixed { raw: a.im as i64 } }
}

/// The mathematical value of an optional stored number.
pub open spec fn view_of(r: Option<Complex>) -> Option<ComplexSpec> {
    match r {
        Some(c) => Some(c@),
        None => None,
    }
}

/// The sum of two complex numbers.
pub open spec fn complex_add(a: ComplexSpec, b: ComplexSpec) -> ComplexSpec {
    ComplexSpec { re: a.re + b.re, im: a.im + b.im }
}

/// The difference of two complex numbers.
pub open spec fn complex_sub(a: ComplexSpec, b: ComplexSpec) -> ComplexSpec {
    ComplexSpec { re: a.re - b.re, im: a.im - b.im }
}

/// The complex product, each of its four real products rounded toward zero.
pub open spec fn complex_mul(a: ComplexSpec, b: ComplexSpec) -> ComplexSpec {
    ComplexSpec {
        re: mul_raw(a.re, b.re) - mul_raw(a.im, b.im),
        im: mul_raw(a.re, b.im) + mul_raw(a.im, b.re),
    }
}

/// The squared magnitude, each square rounded toward zero.
pub open spec fn squared_magnitude_raw(a: ComplexSpec) -> int {
    mul_raw(a.re, a.re) + mul_raw(a.im, a.im)
}

/// The exact squared magnitude, in units of `2^-64`.
pub open spec fn norm_exact(a: ComplexSpec) -> int {
    a.re * a.re + a.im * a.im
}

/// The reciprocal: the conjugate divided by the exact squared magnitude,
/// each part rounded toward zero.
pub open spec fn complex_inverse(a: ComplexSpec) -> ComplexSpec
    recommends
        norm_exact(a) != 0,
{
    ComplexSpec {
        re: trunc_div(a.re * scale() * scale(), norm_exact(a)),
        im: trunc_div(-a.im * scale() * scale(), norm_exact(a)),
    }
}

/// The reciprocal where there is one that can be stored, and nothing
/// otherwise: zero has no reciprocal.
pub open spec fn checked_inverse(a: ComplexSpec) -> Option<ComplexSpec> {
    if a.re == 0 && a.im == 0 {
        None
    } else {
        storable(complex_inverse(a))
    }
}

/// How far, in raw units, the product of a number with its reciprocal may
/// lie from one in either part.
pub open spec fn inverse_error_bound(a: ComplexSpec) -> int {
    2 + (abs(a.re) + abs(a.im)) / scale()
}

/// The exact squared magnitude is zero only at zero.
pub proof fn lemma_norm_positive(a: ComplexSpec)
    ensures
        norm_exact(a) >= 0,
        norm_exact(a) == 0 <==> a.re == 0 && a.im == 0,
{
    assert(a.re * a.re >= 0) by (nonlinear_arith);
    assert(a.im * a.im >= 0) by (nonlinear_arith);
    assert(a.re != 0 ==> a.re * a.re > 0) by (nonlinear_arith);
    assert(a.im != 0 ==> a.im * a.im > 0) by (nonlinear_arith);
}

/// With both rounding errors smaller than `n` in magnitude, `x * e1 - y * e2`
/// is smaller in magnitude than `w * n`, where `w` is `|x| + |y|`.
proof fn lemma_cross_error(x: int, y: int, e1: int, e2: int, n: int, w: int)
    requires
        n > 0,
        -n < e1 < n,
        -n < e2 < n,
        w == abs(x) + abs(y),
        w > 0,
    ensures
        -(w * n) < x * e1 - y * e2 < w * n,
{
    let ax = abs(x);
    let ay = abs(y);
    assert(-(ax * (n - 1)) <= x * e1 <= ax * (n - 1)) by (nonlinear_arith)
        requires
            n > 0,
            -n < e1 < n,
            ax == x || ax == -x,
            ax >= 0,
    ;
    assert(-(ay * (n - 1)) <= y * e2 <= ay * (n - 1)) by (nonlinear_arith)
        requires
            n > 0,
            -n < e2 < n,
            ay == y || ay == -y,
            ay >= 0,
    ;
    assert(ax * (n - 1) + ay * (n - 1) == w * n - w) by (nonlinear_arith)
        requires
            w == ax + ay,
    ;
}

/// If `e * n` is smaller in magnitude than `w * n` for a positive `n`, then
/// `e` is smaller in magnitude than `w`.
proof fn lemma_cancel_positive(e: int, w: int, n: int)
    requires
        n > 0,
        -(w * n) < e * n < w * n,
    ensures
        -w < e < w,
{
    assert(e < w) by (nonlinear_arith)
        requires
            n > 0,
            e * n < w * n,
    ;
    assert(-w < e) by (nonlinear_arith)
        requires
            n > 0,
            -(w * n) < e * n,
    ;
}

/// If `k * s` is smaller in magnitude than `w + 2 * s`, then `k` is at most
/// `2 + w / s` in magnitude.
proof fn lemma_scaled_bound(k: int, w: int, s: int)
    requires
        s > 0,
        w >= 0,
        -(w + 2 * s) < k * s < w + 2 * s,
    ensures
        -(2 + w / s) <= k <= 2 + w / s,
{
    vstd::arithmetic::div_mod::lemma_fundamental_div_mod(w, s);
    vstd::arithmetic::div_mod::lemma_mod_bound(w, s);
    let q = w / s;
    let t = s * q;
    assert(w < t + s);
    assert(k <= 2 + q) by (nonlinear_arith)
        requires
            s > 0,
            k * s < w + 2 * s,
            w < t + s,
            t == s * q,
    ;
    assert(-(2 + q) <= k) by (nonlinear_arith)
        requires
            s > 0,
            -(w + 2 * s) < k * s,
            w < t + s,
            t == s * q,
    ;
}

/// A rounded product misses the exact product by less than one raw unit:
/// `mul_raw(a, b) * scale()` lies within `scale()` of `a * b`.
pub proof fn lemma_mul_raw_error(a: int, b: int)
    ensures
        -scale() < mul_raw(a, b) * scale() - a * b < scale(),
{
    lemma_trunc_div_error(a * b, scale());
}

/// With `a = i * n - x * ss` and `b = j * n + y * ss`, where `n` is
/// `x * x + y * y`: `(i * x - j * y - ss) * n` is `x * a - y * b`.
proof fn lemma_real_part_identity(x: int, y: int, i: int, j: int, n: int, ss: int)
    requires
        n == x * x + y * y,
    ensures
        (i * x - j * y - ss) * n == x * (i * n - x * ss) - y * (j * n + y * ss),
{
    let ix = i * x;
    let jy = j * y;
    let inn = i * n;
    let jn = j * n;
    let xs = x * ss;
    let ys = y * ss;
    assert((ix - jy - ss) * n == ix * n - jy * n - ss * n) by (nonlinear_arith);
    assert(ix * n == x * inn) by (nonlinear_arith)
        requires
            ix == i * x,
            inn == i * n,
    ;
    assert(jy * n == y * jn) by (nonlinear_arith)
        requires
            jy == j * y,
            jn == j * n,
    ;
    assert(x * (inn - xs) == x * inn - x * xs) by (nonlinear_arith);
    assert(y * (jn + ys) == y * jn + y * ys) by (nonlinear_arith);
    assert(x * xs == (x * x) * ss) by (nonlinear_arith)
        requires
            xs == x * ss,
    ;
    assert(y * ys == (y * y) * ss) by (nonlinear_arith)
        requires
            ys == y * ss,
    ;
    let xx = x * x;
    let yy = y * y;
    assert(ss * n == xx * ss + yy * ss) by (nonlinear_arith)
        requires
            n == xx + yy,
    ;
}

/// With `a = i * n - x * ss` and `b = j * n + y * ss`:
/// `(i * y + j * x) * n` is `y * a + x * b`.
proof fn lemma_imaginary_part_identity(x: int, y: int, i: int, j: int, n: int, ss: int)
    ensures
        (i * y + j * x) * n == y * (i * n - x * ss) + x * (j * n + y * ss),
{
    let iy = i * y;
    let jx = j * x;
    let inn = i * n;
    let jn = j * n;
    let xs = x * ss;
    let ys = y * ss;
    assert((iy + jx) * n == iy * n + jx * n) by (nonlinear_arith);
    assert(iy * n == y * inn) by (nonlinear_arith)
        requires
            iy == i * y,
            inn == i * n,
    ;
    assert(jx * n == x * jn) by (nonlinear_arith)
        requires
            jx == j * x,
            jn == j * n,
    ;
    assert(y * (inn - xs) == y * inn - y * xs) by (nonlinear_arith);
    assert(x * (jn + ys) == x * jn + x * ys) by (nonlinear_arith);
    assert(y * xs == x * ys) by (nonlinear_arith)
        requires
            xs == x * ss,
            ys == y * ss,
    ;
}

/// The product of a nonzero number with its reciprocal is one, up to
/// rounding: each part of `complex_mul(complex_inverse(a), a)` lies within
/// `inverse_error_bound(a)` raw units of the matching part of one.
pub proof fn lemma_inverse_times_self(a: ComplexSpec)
    requires
        a.re != 0 || a.im != 0,
    ensures
        abs(complex_mul(complex_inverse(a), a).re - scale()) <= inverse_error_bound(a),
        abs(complex_mul(complex_inverse(a), a).im) <= inverse_error_bound(a),
{
    let x = a.re;
    let y = a.im;
    let s = scale();
    let ss = s * s;
    let n = norm_exact(a);
    lemma_norm_positive(a);
    let inv = complex_inverse(a);
    let ir = inv.re;
    let ii = inv.im;
    let w = abs(x) + abs(y);
    assert(x * s * s == x * ss) by (nonlinear_arith)
        requires
            ss == s * s,
    ;
    assert(-y * s * s == -(y * ss)) by (nonlinear_arith)
        requires
            ss == s * s,
    ;
    // The two quotients, multiplied back, miss their numerators by less than n.
    lemma_trunc_div_error(x * ss, n);
    lemma_trunc_div_error(-(y * ss), n);
    let e1 = ir * n - x * ss;
    let e2 = ii * n + y * ss;
    assert(-n < e1 < n);
    assert(-n < e2 < n);
    // The parts of the product before its four roundings, less one.
    let exact_re = ir * x - ii * y - ss;
    let exact_im = ir * y + ii * x;
    lemma_real_part_identity(x, y, ir, ii, n, ss);
    lemma_imaginary_part_identity(x, y, ir, ii, n, ss);
    lemma_cross_error(x, y, e1, e2, n, w);
    lemma_cross_error(y, x, e1, -e2, n, w);
    assert(x * (-e2) == -(x * e2)) by (nonlinear_arith);
    lemma_cancel_positive(exact_re, w, n);
    lemma_cancel_positive(exact_im, w, n);
    // The four rounded products.
    lemma_mul_raw_error(ir, x);
    lemma_mul_raw_error(ii, y);
    lemma_mul_raw_error(ir, y);
    lemma_mul_raw_error(ii, x);
    let p = complex_mul(inv, a);
    let r1 = mul_raw(ir, x);
    let r2 = mul_raw(ii, y);
    let r3 = mul_raw(ir, y);
    let r4 = mul_raw(ii, x);
    assert((r1 - r2 - s) * s == r1 * s - r2 * s - ss) by (nonlinear_arith)
        requires
            ss == s * s,
    ;
    assert((r3 + r4) * s == r3 * s + r4 * s) by (nonlinear_arith);
    lemma_scaled_bound(p.re - s, w, s);
    lemma_scaled_bound(p.im, w, s);
}

/// The raw value of the tolerance `10^-5`.
pub open spec fn tolerance() -> int {
    scale() / 100000
}

/// For a nonzero number whose parts add up to less than 42948 in magnitude,
/// the product with its reciprocal is one within the tolerance `10^-5`.
pub proof fn lemma_inverse_within_tolerance(a: ComplexSpec)
    requires
        a.re != 0 || a.im != 0,
        abs(a.re) + abs(a.im) < 42948 * scale(),
    ensures
        abs(complex_mul(complex_inverse(a), a).re - scale()) <= tolerance(),
        abs(complex_mul(complex_inverse(a), a).im) <= tolerance(),
{
    lemma_inverse_times_self(a);
    let w = abs(a.re) + abs(a.im);
    assert(w / scale() <= 42947) by {
        vstd::arithmetic::div_mod::lemma_fundamental_div_mod(w, scale());
        vstd::arithmetic::div_mod::lemma_mod_bound(w, scale());
    }
}

/// The square of a storable raw value, which is also the square of its
/// absolute value, is at most `2^126`.
proof fn lemma_square_bound(x: int)
    requires
        fits(x),
    ensures
        abs(x) * abs(x) == x * x,
        0 <= x * x <= 0x4000_0000_0000_0000_0000_0000_0000_0000,
{
    lemma_product_bounds(x, x);
    assert(abs(x) * abs(x) == x * x) by (nonlinear_arith)
        requires
            abs(x) == x || abs(x) == -x,
    ;
    assert(x * x >= 0) by (nonlinear_arith);
}

/// The quotient of `m * 2^64` by `n`, negated where `negative` is set.
pub open spec fn signed_quotient(negative: bool, m: int, n: int) -> int {
    if negative {
        -((m * 0x1_0000_0000_0000_0000) / n)
    } else {
        (m * 0x1_0000_0000_0000_0000) / n
    }
}

/// The truncated quotient of `x * 2^64` by a positive `n` is the quotient of
/// the magnitudes with the sign of `x`.
proof fn lemma_signed_quotient(x: int, n: int)
    requires
        n > 0,
    ensures
        trunc_div(x * scale() * scale(), n) == signed_quotient(x < 0, abs(x), n),
{
    let big: int = 0x1_0000_0000_0000_0000;
    assert(x * scale() * scale() == x * big) by (nonlinear_arith)
        requires
            scale() == 0x1_0000_0000,
            big == 0x1_0000_0000_0000_0000,
    ;
    if x < 0 {
        assert(-(x * big) == (-x) * big) by (nonlinear_arith);
    }
}

/// The absolute value of a raw value, as an unsigned wide integer.
fn magnitude(x: i64) -> (r: u128)
    ensures
        r == abs(x as int),
        r <= 0x8000_0000_0000_0000,
{
    if x >= 0 {
        x as u128
    } else {
        (-(x as i128)) as u128
    }
}

/// The quotient of `m * 2^64` by a positive `n`, with the sign asked for, or
/// `None` where it cannot be stored.
fn scaled_quotient(negative: bool, m: u128, n: u128) -> (r: Option<Fixed>)
    requires
        n > 0,
        m <= 0x8000_0000_0000_0000,
    ensures
        r.is_some() <==> fits(signed_quotient(negative, m as int, n as int)),
        r matches Some(v) ==> v@ == signed_quotient(negative, m as int, n as int),
{
    let numerator: u128 = m * 0x1_0000_0000_0000_0000u128;
    let q: u128 = numerator / n;
    if negative {
        if q > 0x8000_0000_0000_0000u128 {
            None
        } else {
            Some(Fixed { raw: (-(q as i128)) as i64 })
        }
    } else {
        if q > 0x7fff_ffff_ffff_ffffu128 {
            None
        } else {
            Some(Fixed { raw: q as i64 })
        }
    }
}

impl Complex {
    /// The complex number with the given parts.
    pub fn new(re: Fixed, im: Fixed) -> (r: Complex)
        ensures
            r@ == (ComplexSpec { re: re@, im: im@ }),
    {
        Complex { re, im }
    }

    /// The sum, or `None` where a part cannot be stored.
    pub fn checked_add(self, rhs: Complex) -> (r: Option<Complex>)
        ensures
            view_of(r) == storable(complex_add(self@, rhs@)),
    {
        match (self.re.checked_add(rhs.re), self.im.checked_add(rhs.im)) {
            (Some(re), Some(im)) => Some(Complex { re, im }),
            _ => None,
        }
    }

    /// The difference, or `None` where a part cannot be stored.
    pub fn checked_sub(self, rhs: Complex) -> (r: Option<Complex>)
        ensures
            view_of(r) == storable(complex_sub(self@, rhs@)),
    {
        match (self.re.checked_sub(rhs.re), self.im.checked_sub(rhs.im)) {
            (Some(re), Some(im)) => Some(Complex { re, im }),
            _ => None,
        }
    }

    /// The complex product, or `None` where a part cannot be stored.
    pub fn multiply(self, rhs: Complex) -> (r: Option<Complex>)
        ensures
            view_of(r) == storable(complex_mul(self@, rhs@)),
    {
        let re: i128 = mul_wide(self.re.raw, rhs.re.raw) - mul_wide(self.im.raw, rhs.im.raw);
        let im: i128 = mul_wide(self.re.raw, rhs.im.raw) + mul_wide(self.im.raw, rhs.re.raw);
        match (narrow(re), narrow(im)) {
            (Some(re), Some(im)) => Some(Complex { re, im }),
            _ => None,
        }
    }

    /// The product with `rhs` plus `addend`, or `None` where a part of the
    /// result cannot be stored. The product itself need not be storable.
    pub fn multiply_add(self, rhs: Complex, addend: Complex) -> (r: Option<Complex>)
        ensures
            view_of(r) == storable(complex_add(complex_mul(self@, rhs@), addend@)),
    {
        let re: i128 = mul_wide(self.re.raw, rhs.re.raw) - mul_wide(self.im.raw, rhs.im.raw) + (
        addend.re.raw as i128);
        let im: i128 = mul_wide(self.re.raw, rhs.im.raw) + mul_wide(self.im.raw, rhs.re.raw) + (
        addend.im.raw as i128);
        match (narrow(re), narrow(im)) {
            (Some(re), Some(im)) => Some(Complex { re, im }),
            _ => None,
        }
    }

    /// The squared magnitude, or `None` where it cannot be stored.
    pub fn squared_magnitude(self) -> (r: Option<Fixed>)
        ensures
            r.is_some() <==> fits(squared_magnitude_raw(self@)),
            r matches Some(v) ==> v@ == squared_magnitude_raw(self@),
    {
        narrow(mul_wide(self.re.raw, self.re.raw) + mul_wide(self.im.raw, self.im.raw))
    }

    /// The reciprocal. Zero has none, and a number so small that a part of
    /// its reciprocal cannot be stored has none either: both give `None`.
    pub fn inverse(self) -> (r: Option<Complex>)
        ensures
            view_of(r) == checked_inverse(self@),
    {
        let x: u128 = magnitude(self.re.raw);
        let y: u128 = magnitude(self.im.raw);
        proof {
            lemma_norm_positive(self@);
            lemma_square_bound(self.re@);
            lemma_square_bound(self.im@);
        }
        let n: u128 = x * x + y * y;
        if n == 0 {
            return None;
        }
        proof {
            lemma_signed_quotient(self.re@, n as int);
            lemma_signed_quotient(-self.im@, n as int);
        }
        let re = scaled_quotient(self.re.raw < 0, x, n);
        let im = scaled_quotient(self.im.raw > 0, y, n);
        match (re, im) {
            (Some(re), Some(im)) => Some(Complex { re, im }),
            _ => None,
        }
    }
}

} // verus!
