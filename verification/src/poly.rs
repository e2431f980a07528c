//! Evaluation of complex polynomials by Horner's scheme, and the cubic
//! `z^3 - 1` with its derivative `3 z^2`.

use vstd::prelude::*;
use crate::complex::complex_add;
use crate::complex::complex_fits;
use crate::complex::complex_mul;
use crate::complex::storable;
use crate::complex::view_of;
use crate::complex::Complex;
use crate::complex::ComplexSpec;
use crate::fixed::lemma_mul_raw_one;
use crate::fixed::lemma_mul_raw_whole;
use crate::fixed::lemma_mul_raw_zero;
use crate::fixed::scale;
use crate::fixed::Fixed;
use crate::fixed::SCALE;

verus! {

/// The value at `z` of the polynomial whose coefficients, from the constant
/// term upward, are `coeffs`. Horner's scheme: the value of the polynomial
/// without its constant term and divided by `z`, times `z`, plus the constant
/// term. Nothing where a step's result cannot be stored.
pub open spec fn eval_poly_spec(z: ComplexSpec, coeffs: Seq<Complex>) -> Option<ComplexSpec>
    decreases coeffs.len(),
{
    if coeffs.len() == 0 {
        Some(ComplexSpec { re: 0, im: 0 })
    } else {
        match eval_poly_spec(z, coeffs.drop_first()) {
            Some(higher) => storable(complex_add(complex_mul(higher, z), coeffs[0]@)),
            None => None,
        }
    }
}

/// The coefficients of `z^3 - 1`, from the constant term upward.
pub open spec fn coeffs_spec() -> Seq<Complex> {
    seq![
        Complex { re: Fixed { raw: (-0x1_0000_0000) as i64 }, im: Fixed { raw: 0 } },
        Complex { re: Fixed { raw: 0 }, im: Fixed { raw: 0 } },
        Complex { re: Fixed { raw: 0 }, im: Fixed { raw: 0 } },
        Complex { re: Fixed { raw: 0x1_0000_0000 }, im: Fixed { raw: 0 } },
    ]
}

/// The coefficients of `3 z^2`, from the constant term upward.
pub open spec fn derivative_coeffs_spec() -> Seq<Complex> {
    seq![
        Complex { re: Fixed { raw: 0 }, im: Fixed { raw: 0 } },
        Complex { re: Fixed { raw: 0 }, im: Fixed { raw: 0 } },
        Complex { re: Fixed { raw: 0x3_0000_0000 }, im: Fixed { raw: 0 } },
    ]
}

/// The coefficients of `z^3 - 1`, from the constant term upward.
pub fn coeffs() -> (c: [Complex; 4])
    ensures
        c@ == coeffs_spec(),
{
    let zero = Complex { re: Fixed { raw: 0 }, im: Fixed { raw: 0 } };
    let c: [Complex; 4] = [
        Complex { re: Fixed { raw: -SCALE }, im: Fixed { raw: 0 } },
        zero,
        zero,
        Complex { re: Fixed { raw: SCALE }, im: Fixed { raw: 0 } },
    ];
    assert(c@ =~= coeffs_spec());
    c
}

/// The coefficients of `3 z^2`, from the constant term upward.
pub fn derivative_coeffs() -> (c: [Complex; 3])
    ensures
        c@ == derivative_coeffs_spec(),
{
    let zero = Complex { re: Fixed { raw: 0 }, im: Fixed { raw: 0 } };
    let c: [Complex; 3] = [zero, zero, Complex { re: Fixed { raw: 3 * SCALE }, im: Fixed { raw: 0 } }];
    assert(c@ =~= derivative_coeffs_spec());
    c
}

/// The value of the polynomial with the given coefficients at `point`, or
/// `None` where a step of Horner's scheme leaves the range that can be
/// stored.
pub fn eval_poly(point: Complex, coefficients: &[Complex]) -> (r: Option<Complex>)
    ensures
        view_of(r) == eval_poly_spec(point@, coefficients@),
{
    let n: usize = coefficients.len();
    let mut acc = Complex { re: Fixed { raw: 0 }, im: Fixed { raw: 0 } };
    let mut k: usize = n;
    assert(coefficients@.subrange(n as int, n as int) =~= Seq::<Complex>::empty());
    while k > 0
        invariant
            k <= n,
            n == coefficients@.len(),
            Some(acc@) == eval_poly_spec(point@, coefficients@.subrange(k as int, n as int)),
        decreases k,
    {
        k = k - 1;
        proof {
            let suffix = coefficients@.subrange(k as int, n as int);
            assert(suffix.drop_first() =~= coefficients@.subrange(k as int + 1, n as int));
            assert(suffix[0] == coefficients@[k as int]);
        }
        match acc.multiply_add(point, coefficients[k]) {
            Some(next) => {
                acc = next;
            },
            None => {
                proof {
                    lemma_eval_poly_prefix_fails(point@, coefficients@, k as int);
                }
                return None;
            },
        }
    }
    assert(coefficients@.subrange(0, n as int) =~= coefficients@);
    Some(acc)
}

/// Once Horner's scheme has failed on the terms from `k` upward, it fails on
/// the whole polynomial.
proof fn lemma_eval_poly_prefix_fails(z: ComplexSpec, coeffs: Seq<Complex>, k: int)
    requires
        0 <= k <= coeffs.len(),
        eval_poly_spec(z, coeffs.subrange(k, coeffs.len() as int)).is_none(),
    ensures
        eval_poly_spec(z, coeffs).is_none(),
    decreases k,
{
    if k == 0 {
        assert(coeffs.subrange(0, coeffs.len() as int) =~= coeffs);
    } else {
        let lower = coeffs.subrange(k - 1, coeffs.len() as int);
        assert(lower.drop_first() =~= coeffs.subrange(k, coeffs.len() as int));
        lemma_eval_poly_prefix_fails(z, coeffs, k - 1);
    }
}

/// The raw value of three times a number.
pub open spec fn triple(z: ComplexSpec) -> ComplexSpec {
    ComplexSpec { re: 3 * z.re, im: 3 * z.im }
}

/// On the coefficients of `z^3 - 1`, Horner's scheme computes `(z * z) * z - 1`
/// and needs `z * z` and the result to be storable.
pub proof fn lemma_cubic_value(z: ComplexSpec)
    requires
        complex_fits(z),
    ensures
        eval_poly_spec(z, coeffs_spec()) == if complex_fits(complex_mul(z, z)) {
            storable(
                complex_add(
                    complex_mul(complex_mul(z, z), z),
                    ComplexSpec { re: -scale(), im: 0 },
                ),
            )
        } else {
            None
        },
{
    let c = coeffs_spec();
    let c1 = c.drop_first();
    let c2 = c1.drop_first();
    let c3 = c2.drop_first();
    let c4 = c3.drop_first();
    assert(c4.len() == 0);
    assert(eval_poly_spec(z, c4) == Some(ComplexSpec { re: 0, im: 0 }));
    lemma_mul_raw_zero(z.re);
    lemma_mul_raw_zero(z.im);
    lemma_mul_raw_one(z.re);
    lemma_mul_raw_one(z.im);
    let one = ComplexSpec { re: scale(), im: 0 };
    assert(c3[0]@ == one);
    assert(eval_poly_spec(z, c3) == Some(one));
    assert(c2[0]@ == (ComplexSpec { re: 0, im: 0 }));
    assert(complex_mul(one, z) == z);
    assert(eval_poly_spec(z, c2) == Some(z));
    assert(c1[0]@ == (ComplexSpec { re: 0, im: 0 }));
    assert(eval_poly_spec(z, c1) == storable(complex_mul(z, z)));
    assert(c[0]@ == (ComplexSpec { re: -scale(), im: 0 }));
}

/// On the coefficients of `3 z^2`, Horner's scheme computes `(3 z) * z` and
/// needs `3 z` and the result to be storable.
pub proof fn lemma_derivative_value(z: ComplexSpec)
    requires
        complex_fits(z),
    ensures
        eval_poly_spec(z, derivative_coeffs_spec()) == if complex_fits(triple(z)) {
            storable(complex_mul(triple(z), z))
        } else {
            None
        },
{
    let c = derivative_coeffs_spec();
    let c1 = c.drop_first();
    let c2 = c1.drop_first();
    let c3 = c2.drop_first();
    assert(c3.len() == 0);
    assert(eval_poly_spec(z, c3) == Some(ComplexSpec { re: 0, im: 0 }));
    lemma_mul_raw_zero(z.re);
    lemma_mul_raw_zero(z.im);
    let three = ComplexSpec { re: 3 * scale(), im: 0 };
    assert(c2[0]@ == three);
    assert(eval_poly_spec(z, c2) == Some(three));
    lemma_mul_raw_whole(3, z.re);
    lemma_mul_raw_whole(3, z.im);
    assert(complex_mul(three, z) == triple(z));
    assert(c1[0]@ == (ComplexSpec { re: 0, im: 0 }));
    assert(eval_poly_spec(z, c1) == storable(triple(z)));
    assert(c[0]@ == (ComplexSpec { re: 0, im: 0 }));
}

} // verus!
