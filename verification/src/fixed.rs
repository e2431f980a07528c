//! Signed fixed-point numbers with 32 fractional bits.
//!
//! A `Fixed` holds a raw `i64`; the number it stands for is `raw / 2^32`.
//! Every contract speaks of raw values as mathematical integers, so sums and
//! differences are exact and a product or quotient is the exact result
//! rounded toward zero.

use vstd::prelude::*;

verus! {

/// The raw value of the number one.
pub const SCALE: i64 = 0x1_0000_0000;

/// The raw value of the number one, as a mathematical integer.
pub open spec fn scale() -> int {
    0x1_0000_0000
}

/// Whether a raw value can be stored.
pub open spec fn fits(x: int) -> bool {
    i64::MIN <= x <= i64::MAX
}

/// The raw value nearest to `x` that can be stored.
pub open spec fn clamp_raw(x: int) -> int {
    if x < i64::MIN {
        i64::MIN as int
    } else if x > i64::MAX {
        i64::MAX as int
    } else {
        x
    }
}

/// The quotient of `n` by a nonzero `d`, rounded toward zero.
pub open spec fn trunc_div(n: int, d: int) -> int
    recommends
        d != 0,
{
    if d > 0 {
        if n >= 0 {
            n / d
        } else {
            -((-n) / d)
        }
    } else {
        if n >= 0 {
            -(n / (-d))
        } else {
            (-n) / (-d)
        }
    }
}

/// The raw value of the product of the numbers with raw values `a` and `b`.
pub open spec fn mul_raw(a: int, b: int) -> int {
    trunc_div(a * b, scale())
}

/// The raw value of the quotient of the numbers with raw values `a` and `b`.
pub open spec fn div_raw(a: int, b: int) -> int
    recommends
        b != 0,
{
    trunc_div(a * scale(), b)
}

/// The absolute value of an integer.
pub open spec fn abs(x: int) -> int {
    if x >= 0 {
        x
    } else {
        -x
    }
}

/// A truncated quotient by a positive divisor misses the exact quotient by
/// less than one, and never overshoots it in magnitude.
pub proof fn lemma_trunc_div_error(n: int, d: int)
    requires
        d > 0,
    ensures
        n >= 0 ==> 0 <= trunc_div(n, d) && n - d < trunc_div(n, d) * d <= n,
        n <= 0 ==> trunc_div(n, d) <= 0 && n <= trunc_div(n, d) * d < n + d,
{
    if n >= 0 {
        vstd::arithmetic::div_mod::lemma_fundamental_div_mod(n, d);
        vstd::arithmetic::div_mod::lemma_mod_bound(n, d);
        vstd::arithmetic::div_mod::lemma_div_pos_is_pos(n, d);
        assert(d * (n / d) == (n / d) * d) by (nonlinear_arith);
    } else {
        let m = -n;
        vstd::arithmetic::div_mod::lemma_fundamental_div_mod(m, d);
        vstd::arithmetic::div_mod::lemma_mod_bound(m, d);
        vstd::arithmetic::div_mod::lemma_div_pos_is_pos(m, d);
        assert(d * (m / d) == (m / d) * d) by (nonlinear_arith);
        assert((-(m / d)) * d == -((m / d) * d)) by (nonlinear_arith);
    }
}

/// Truncating division by a positive divisor is odd in its numerator.
pub proof fn lemma_trunc_div_neg(n: int, d: int)
    requires
        d > 0,
    ensures
        trunc_div(-n, d) == -trunc_div(n, d),
{
    if n == 0 {
        assert(0int / d == 0) by (nonlinear_arith)
            requires
                d > 0,
        ;
    }
}

/// Truncating division by a positive divisor is monotonic in its numerator.
pub proof fn lemma_trunc_div_monotonic(n1: int, n2: int, d: int)
    requires
        d > 0,
        n1 <= n2,
    ensures
        trunc_div(n1, d) <= trunc_div(n2, d),
{
    lemma_trunc_div_error(n1, d);
    lemma_trunc_div_error(n2, d);
    if n1 >= 0 {
        vstd::arithmetic::div_mod::lemma_div_is_ordered(n1, n2, d);
    } else if n2 < 0 {
        vstd::arithmetic::div_mod::lemma_div_is_ordered(-n2, -n1, d);
    }
}

/// An exact multiple divides without rounding.
pub proof fn lemma_trunc_div_exact(q: int, d: int)
    requires
        d > 0,
    ensures
        trunc_div(q * d, d) == q,
{
    if q >= 0 {
        assert(q * d >= 0) by (nonlinear_arith)
            requires
                q >= 0,
                d > 0,
        ;
        assert(q * d == d * q) by (nonlinear_arith);
        vstd::arithmetic::div_mod::lemma_div_multiples_vanish(q, d);
    } else {
        assert(q * d < 0) by (nonlinear_arith)
            requires
                q < 0,
                d > 0,
        ;
        assert(-(q * d) == d * (-q)) by (nonlinear_arith);
        vstd::arithmetic::div_mod::lemma_div_multiples_vanish(-q, d);
    }
}

/// Multiplying by one changes nothing.
pub proof fn lemma_mul_raw_one(x: int)
    ensures
        mul_raw(x, scale()) == x,
        mul_raw(scale(), x) == x,
{
    lemma_trunc_div_exact(x, scale());
    assert(scale() * x == x * scale()) by (nonlinear_arith);
}

/// Multiplying by zero gives zero.
pub proof fn lemma_mul_raw_zero(x: int)
    ensures
        mul_raw(x, 0) == 0,
        mul_raw(0, x) == 0,
{
    assert(x * 0 == 0) by (nonlinear_arith);
    assert(0 * x == 0) by (nonlinear_arith);
    lemma_trunc_div_exact(0, scale());
}

/// Multiplying by a whole number is exact.
pub proof fn lemma_mul_raw_whole(k: int, x: int)
    ensures
        mul_raw(k * scale(), x) == k * x,
        mul_raw(x, k * scale()) == k * x,
{
    assert((k * scale()) * x == (k * x) * scale()) by (nonlinear_arith);
    assert(x * (k * scale()) == (k * x) * scale()) by (nonlinear_arith);
    lemma_trunc_div_exact(k * x, scale());
}

/// Negating a factor negates the rounded product exactly.
pub proof fn lemma_mul_raw_neg(a: int, b: int)
    ensures
        mul_raw(a, -b) == -mul_raw(a, b),
        mul_raw(-a, b) == -mul_raw(a, b),
{
    assert(a * (-b) == -(a * b)) by (nonlinear_arith);
    assert((-a) * b == -(a * b)) by (nonlinear_arith);
    lemma_trunc_div_neg(a * b, scale());
}

/// A product of two storable raw values stays far inside the 128-bit range.
pub proof fn lemma_product_bounds(a: int, b: int)
    requires
        fits(a),
        fits(b),
    ensures
        -0x4000_0000_0000_0000_0000_0000_0000_0000 <= a * b
            <= 0x4000_0000_0000_0000_0000_0000_0000_0000,
        -0x4000_0000_0000_0000_0000_0000 <= mul_raw(a, b) <= 0x4000_0000_0000_0000_0000_0000,
{
    assert(-0x4000_0000_0000_0000_0000_0000_0000_0000 <= a * b
        <= 0x4000_0000_0000_0000_0000_0000_0000_0000) by (nonlinear_arith)
        requires
            -0x8000_0000_0000_0000 <= a <= 0x8000_0000_0000_0000,
            -0x8000_0000_0000_0000 <= b <= 0x8000_0000_0000_0000,
    ;
    lemma_trunc_div_monotonic(a * b, 0x4000_0000_0000_0000_0000_0000_0000_0000, scale());
    lemma_trunc_div_monotonic(-0x4000_0000_0000_0000_0000_0000_0000_0000, a * b, scale());
    assert(0x4000_0000_0000_0000_0000_0000_0000_0000int == 0x4000_0000_0000_0000_0000_0000int
        * scale()) by (nonlinear_arith);
    lemma_trunc_div_exact(0x4000_0000_0000_0000_0000_0000, scale());
    lemma_trunc_div_neg(0x4000_0000_0000_0000_0000_0000_0000_0000, scale());
}

/// A signed fixed-point number with 32 fractional bits.
#[derive(Clone, Copy, Debug, PartialEq, Eq, Structural)]
pub struct Fixed {
    /// The number times 2^32.
    pub raw: i64,
}

impl View for Fixed {
    type V = int;

    /// The raw value as a mathematical integer.
    open spec fn view(&self) -> int {
        self.raw as int
    }
}

/// The rounded product of two raw values, computed without overflow.
pub fn mul_wide(a: i64, b: i64) -> (r: i128)
    ensures
        r == mul_raw(a as int, b as int),
        -0x4000_0000_0000_0000_0000_0000 <= r <= 0x4000_0000_0000_0000_0000_0000,
{
    proof {
        lemma_product_bounds(a as int, b as int);
    }
    let p: i128 = (a as i128) * (b as i128);
    p / (SCALE as i128)
}

/// Stores a wide raw value if it can be stored.
pub fn narrow(x: i128) -> (r: Option<Fixed>)
    ensures
        r.is_some() <==> fits(x as int),
        r matches Some(v) ==> v@ == x,
{
    if x < (i64::MIN as i128) || x > (i64::MAX as i128) {
        None
    } else {
        Some(Fixed { raw: x as i64 })
    }
}

impl Fixed {
    /// The number with the given raw value.
    pub fn from_raw(raw: i64) -> (r: Fixed)
        ensures
            r@ == raw,
    {
        Fixed { raw }
    }

    /// The whole number `n`.
    pub fn from_int(n: i32) -> (r: Fixed)
        ensures
            r@ == n * scale(),
    {
        let wide: i64 = n as i64;
        assert(i64::MIN <= wide * 0x1_0000_0000 <= i64::MAX) by (nonlinear_arith)
            requires
                -0x8000_0000 <= wide <= 0x7fff_ffff,
        ;
        Fixed { raw: wide * SCALE }
    }

    /// Zero.
    pub fn zero() -> (r: Fixed)
        ensures
            r@ == 0,
    {
        Fixed { raw: 0 }
    }

    /// One.
    pub fn one() -> (r: Fixed)
        ensures
            r@ == scale(),
    {
        Fixed { raw: SCALE }
    }

    /// The raw value.
    pub fn raw(&self) -> (r: i64)
        ensures
            r == self@,
    {
        self.raw
    }

    /// The sum, or `None` where it cannot be stored.
    pub fn checked_add(self, rhs: Fixed) -> (r: Option<Fixed>)
        ensures
            r.is_some() <==> fits(self@ + rhs@),
            r matches Some(v) ==> v@ == self@ + rhs@,
    {
        narrow((self.raw as i128) + (rhs.raw as i128))
    }

    /// The difference, or `None` where it cannot be stored.
    pub fn checked_sub(self, rhs: Fixed) -> (r: Option<Fixed>)
        ensures
            r.is_some() <==> fits(self@ - rhs@),
            r matches Some(v) ==> v@ == self@ - rhs@,
    {
        narrow((self.raw as i128) - (rhs.raw as i128))
    }

    /// The negation, or `None` where it cannot be stored.
    pub fn checked_neg(self) -> (r: Option<Fixed>)
        ensures
            r.is_some() <==> fits(-self@),
            r matches Some(v) ==> v@ == -self@,
    {
        narrow(-(self.raw as i128))
    }

    /// The product rounded toward zero, or `None` where it cannot be stored.
    pub fn checked_mul(self, rhs: Fixed) -> (r: Option<Fixed>)
        ensures
            r.is_some() <==> fits(mul_raw(self@, rhs@)),
            r matches Some(v) ==> v@ == mul_raw(self@, rhs@),
    {
        narrow(mul_wide(self.raw, rhs.raw))
    }

    /// The quotient rounded toward zero, or `None` where the divisor is zero
    /// or the quotient cannot be stored.
    pub fn checked_div(self, rhs: Fixed) -> (r: Option<Fixed>)
        ensures
            r.is_some() <==> rhs@ != 0 && fits(div_raw(self@, rhs@)),
            r matches Some(v) ==> v@ == div_raw(self@, rhs@),
    {
        if rhs.raw == 0 {
            return None;
        }
        assert(i128::MIN < self.raw * 0x1_0000_0000 < i128::MAX) by (nonlinear_arith)
            requires
                -0x8000_0000_0000_0000 <= self.raw <= 0x7fff_ffff_ffff_ffff,
        ;
        let n: i128 = (self.raw as i128) * (SCALE as i128);
        let d: i128 = rhs.raw as i128;
        if d > 0 {
            narrow(n / d)
        } else {
            let flipped: i128 = -n;
            let q: i128 = flipped / (-d);
            proof {
                let m: int = n as int;
                let e: int = -(d as int);
                if m >= 0 {
                    if m == 0 {
                        assert(0int / e == 0) by (nonlinear_arith)
                            requires
                                e > 0,
                        ;
                    }
                }
            }
            narrow(q)
        }
    }

    /// The quotient by a whole number, rounded toward zero, or `None` where
    /// the divisor is zero.
    pub fn div_int(self, n: u32) -> (r: Option<Fixed>)
        ensures
            r.is_some() <==> n != 0,
            r matches Some(v) ==> v@ == trunc_div(self@, n as int),
    {
        if n == 0 {
            return None;
        }
        proof {
            lemma_trunc_div_error(self@, n as int);
            let q: int = trunc_div(self@, n as int);
            assert(fits(q)) by (nonlinear_arith)
                requires
                    n >= 1,
                    fits(self@),
                    self@ >= 0 ==> 0 <= q && q * n <= self@,
                    self@ <= 0 ==> q <= 0 && self@ <= q * n,
            ;
        }
        Some(Fixed { raw: self.raw / (n as i64) })
    }

    /// The difference, clamped to the range that can be stored.
    pub fn saturating_sub(self, rhs: Fixed) -> (r: Fixed)
        ensures
            r@ == clamp_raw(self@ - rhs@),
    {
        let wide: i128 = (self.raw as i128) - (rhs.raw as i128);
        if wide < (i64::MIN as i128) {
            Fixed { raw: i64::MIN }
        } else if wide > (i64::MAX as i128) {
            Fixed { raw: i64::MAX }
        } else {
            Fixed { raw: wide as i64 }
        }
    }

    /// The sum, clamped to the range that can be stored.
    pub fn saturating_add(self, rhs: Fixed) -> (r: Fixed)
        ensures
            r@ == clamp_raw(self@ + rhs@),
    {
        let wide: i128 = (self.raw as i128) + (rhs.raw as i128);
        if wide < (i64::MIN as i128) {
            Fixed { raw: i64::MIN }
        } else if wide > (i64::MAX as i128) {
            Fixed { raw: i64::MAX }
        } else {
            Fixed { raw: wide as i64 }
        }
    }
}

} // verus!
