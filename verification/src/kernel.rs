//! The two per-point kernels: the escape-time count of the Mandelbrot set and
//! Newton's iteration on `z^3 - 1`.

use vstd::prelude::*;
use crate::complex::checked_inverse;
use crate::complex::complex_add;
use crate::complex::complex_fits;
use crate::complex::complex_mul;
use crate::complex::complex_sub;
use crate::complex::squared_magnitude_raw;
use crate::complex::stored;
use crate::complex::storable;
use crate::complex::view_of;
use crate::complex::Complex;
use crate::complex::ComplexSpec;
use crate::controls::FractalType;
use crate::fixed::fits;
use crate::fixed::lemma_trunc_div_error;
use crate::fixed::lemma_trunc_div_exact;
use crate::fixed::lemma_trunc_div_monotonic;
use crate::fixed::mul_raw;
use crate::fixed::mul_wide;
use crate::fixed::scale;
use crate::fixed::Fixed;
use crate::fixed::SCALE;
use crate::poly::coeffs;
use crate::poly::coeffs_spec;
use crate::poly::derivative_coeffs;
use crate::poly::derivative_coeffs_spec;
use crate::poly::eval_poly;
use crate::poly::eval_poly_spec;

verus! {

/// The number of Mandelbrot iterates that are tested before a point is
/// taken to lie in the set.
pub const MAX_ITERATIONS: u32 = 256;

/// The number of Newton steps that are taken from each point.
pub const NEWTON_ITERATIONS: u32 = 32;

/// Whether an iterate has left the disc of radius two: its squared magnitude
/// is greater than four.
pub open spec fn escaped(z: ComplexSpec) -> bool {
    squared_magnitude_raw(z) > 4 * scale()
}

/// One Mandelbrot transition: `z * z + c`.
pub open spec fn mandelbrot_step(z: ComplexSpec, c: ComplexSpec) -> ComplexSpec {
    complex_add(complex_mul(z, z), c)
}

/// The index of the first escaped iterate among those numbered `i` and
/// upward, of which `z` is the one numbered `i`; `budget` where none below
/// `budget` has escaped.
pub open spec fn escape_index(z: ComplexSpec, c: ComplexSpec, i: nat, budget: nat) -> nat
    decreases budget - i,
{
    if i >= budget {
        budget
    } else if escaped(z) {
        i
    } else {
        escape_index(mandelbrot_step(z, c), c, i + 1, budget)
    }
}

/// The raw value of the share of the budget that was left when the iterate
/// numbered `index` escaped: one for an immediate escape, zero for none.
pub open spec fn normalized_count(index: nat, budget: nat) -> int
    recommends
        0 < budget,
        index <= budget,
{
    ((budget - index) * scale()) / (budget as int)
}

/// The normalized escape count of the point `c`, whose iterates start at `c`
/// itself.
pub open spec fn mandelbrot_spec(c: ComplexSpec) -> int {
    normalized_count(escape_index(c, c, 0, MAX_ITERATIONS as nat), MAX_ITERATIONS as nat)
}

/// The escape index lies between the index it is counted from and the
/// budget.
pub proof fn lemma_escape_index_bounds(z: ComplexSpec, c: ComplexSpec, i: nat, budget: nat)
    requires
        i <= budget,
    ensures
        i <= escape_index(z, c, i, budget) <= budget,
        escape_index(z, c, i, budget) == i <==> i == budget || escaped(z),
    decreases budget - i,
{
    if i < budget && !escaped(z) {
        lemma_escape_index_bounds(mandelbrot_step(z, c), c, i + 1, budget);
    }
}

/// The normalized count lies between zero and one. It is zero exactly where
/// no iterate within the budget has escaped, and one exactly where the point
/// itself has.
pub proof fn lemma_count_range(c: ComplexSpec)
    ensures
        0 <= mandelbrot_spec(c) <= scale(),
        mandelbrot_spec(c) == 0 <==> escape_index(c, c, 0, MAX_ITERATIONS as nat)
            == MAX_ITERATIONS,
        mandelbrot_spec(c) == scale() <==> escaped(c),
{
    lemma_escape_index_bounds(c, c, 0, MAX_ITERATIONS as nat);
}

/// An iterate with a part too large to be stored has escaped.
pub proof fn lemma_unstorable_escapes(z: ComplexSpec)
    requires
        !complex_fits(z),
    ensures
        escaped(z),
{
    lemma_square_is_large(z.re);
    lemma_square_is_large(z.im);
}

/// A rounded square is never negative, and that of a value too large to be
/// stored is greater than four.
proof fn lemma_square_is_large(x: int)
    ensures
        mul_raw(x, x) >= 0,
        !fits(x) ==> mul_raw(x, x) > 4 * scale(),
{
    assert(x * x >= 0) by (nonlinear_arith);
    lemma_trunc_div_error(x * x, scale());
    if !fits(x) {
        assert(x * x >= 0x4000_0000_0000_0000 * scale()) by (nonlinear_arith)
            requires
                x >= 0x7fff_ffff_ffff_ffff || x <= -0x7fff_ffff_ffff_ffff,
                scale() == 0x1_0000_0000,
        ;
        lemma_trunc_div_monotonic(0x4000_0000_0000_0000 * scale(), x * x, scale());
        lemma_trunc_div_exact(0x4000_0000_0000_0000, scale());
    }
}

/// Whether the squared magnitude of `z` is greater than four.
fn has_escaped(z: Complex) -> (r: bool)
    ensures
        r == escaped(z@),
{
    let m: i128 = mul_wide(z.re.raw, z.re.raw) + mul_wide(z.im.raw, z.im.raw);
    m > 4 * (SCALE as i128)
}

/// The normalized count for an escape at the iterate numbered `index`.
fn normalized(index: u32) -> (r: Fixed)
    requires
        index <= MAX_ITERATIONS,
    ensures
        r@ == normalized_count(index as nat, MAX_ITERATIONS as nat),
{
    let left: i64 = (MAX_ITERATIONS - index) as i64;
    Fixed { raw: (left * SCALE) / (MAX_ITERATIONS as i64) }
}

/// The normalized escape count of `c` under `z -> z * z + c`, started at `c`:
/// zero where none of the first `MAX_ITERATIONS` iterates has a squared
/// magnitude above four, and otherwise the share of the budget that was left
/// at the first one that has, which is one for `c` itself.
pub fn mandelbrot_iterations(c: Complex) -> (r: Fixed)
    ensures
        r@ == mandelbrot_spec(c@),
{
    let mut z = c;
    let mut i: u32 = 0;
    while i < MAX_ITERATIONS
        invariant
            i <= MAX_ITERATIONS,
            escape_index(c@, c@, 0, MAX_ITERATIONS as nat) == escape_index(
                z@,
                c@,
                i as nat,
                MAX_ITERATIONS as nat,
            ),
        decreases MAX_ITERATIONS - i,
    {
        if has_escaped(z) {
            return normalized(i);
        }
        match z.multiply_add(z, c) {
            Some(next) => {
                z = next;
                i = i + 1;
            },
            None => {
                proof {
                    let next = mandelbrot_step(z@, c@);
                    lemma_unstorable_escapes(next);
                    assert(escape_index(z@, c@, i as nat, MAX_ITERATIONS as nat) == escape_index(
                        next,
                        c@,
                        (i + 1) as nat,
                        MAX_ITERATIONS as nat,
                    ));
                }
                return normalized(i + 1);
            },
        }
    }
    normalized(MAX_ITERATIONS)
}

/// One Newton step on `z^3 - 1`: `z - p(z) * (1 / p'(z))`. Nothing where the
/// derivative is zero at `z` or a step of the computation leaves the range
/// that can be stored.
pub open spec fn newton_step_spec(z: ComplexSpec) -> Option<ComplexSpec> {
    match (eval_poly_spec(z, coeffs_spec()), eval_poly_spec(z, derivative_coeffs_spec())) {
        (Some(value), Some(slope)) => match checked_inverse(slope) {
            Some(inverse) => match storable(complex_mul(value, inverse)) {
                Some(quotient) => storable(complex_sub(z, quotient)),
                None => None,
            },
            None => None,
        },
        _ => None,
    }
}

/// The point reached from `z` by `steps` Newton steps. The iteration stays
/// where it is from the first point that has no next one.
pub open spec fn newton_spec(z: ComplexSpec, steps: nat) -> ComplexSpec
    decreases steps,
{
    if steps == 0 {
        z
    } else {
        match newton_step_spec(z) {
            Some(next) => newton_spec(next, (steps - 1) as nat),
            None => z,
        }
    }
}

/// The root one is a fixed point: Newton's iteration started there stays
/// there, however many steps it takes.
pub proof fn lemma_newton_stays_at_one(steps: nat)
    ensures
        newton_spec(ComplexSpec { re: scale(), im: 0 }, steps) == (ComplexSpec {
            re: scale(),
            im: 0,
        }),
    decreases steps,
{
    let one = ComplexSpec { re: scale(), im: 0 };
    let zero = ComplexSpec { re: 0, im: 0 };
    let three = ComplexSpec { re: 3 * scale(), im: 0 };
    if steps > 0 {
        crate::fixed::lemma_mul_raw_one(scale());
        crate::fixed::lemma_mul_raw_one(3 * scale());
        crate::fixed::lemma_mul_raw_zero(scale());
        crate::fixed::lemma_mul_raw_zero(3 * scale());
        crate::fixed::lemma_mul_raw_zero(0);
        assert(complex_mul(one, one) == one);
        assert(complex_mul(three, one) == three);
        crate::poly::lemma_cubic_value(one);
        crate::poly::lemma_derivative_value(one);
        assert(eval_poly_spec(one, coeffs_spec()) == Some(zero));
        assert(eval_poly_spec(one, derivative_coeffs_spec()) == Some(three));
        crate::complex::lemma_norm_positive(three);
        let inverse = crate::complex::complex_inverse(three);
        let n = crate::complex::norm_exact(three);
        let numerator = 3 * scale() * scale() * scale();
        assert(numerator == 0x3_0000_0000_0000_0000_0000_0000 && n == 0x9_0000_0000_0000_0000)
            by (nonlinear_arith)
            requires
                numerator == 3 * scale() * scale() * scale(),
                n == (3 * scale()) * (3 * scale()) + 0 * 0,
                scale() == 0x1_0000_0000,
        ;
        lemma_trunc_div_error(numerator, n);
        assert(-0 * scale() * scale() == 0) by (nonlinear_arith);
        lemma_trunc_div_exact(0, n);
        assert(inverse.im == 0);
        assert(inverse.re * 0x9_0000_0000_0000_0000 <= 0x3_0000_0000_0000_0000_0000_0000);
        assert(0 <= inverse.re <= scale());
        crate::fixed::lemma_mul_raw_zero(inverse.re);
        assert(complex_mul(zero, inverse) == zero);
        assert(newton_step_spec(one) == Some(one));
        lemma_newton_stays_at_one((steps - 1) as nat);
    }
}

/// One Newton step on `z^3 - 1` from `z`, or `None` where there is none.
pub fn newton_step(z: Complex) -> (r: Option<Complex>)
    ensures
        view_of(r) == newton_step_spec(z@),
{
    let c = coeffs();
    let d = derivative_coeffs();
    let value = eval_poly(z, c.as_slice());
    let slope = eval_poly(z, d.as_slice());
    match (value, slope) {
        (Some(value), Some(slope)) => match slope.inverse() {
            Some(inverse) => match value.multiply(inverse) {
                Some(quotient) => z.checked_sub(quotient),
                None => None,
            },
            None => None,
        },
        _ => None,
    }
}

/// The point reached from `start` by `NEWTON_ITERATIONS` Newton steps on
/// `z^3 - 1`. A point where the derivative vanishes, or from which the next
/// point cannot be computed in range, is returned as it is.
pub fn newton_iterate(start: Complex) -> (r: Complex)
    ensures
        r@ == newton_spec(start@, NEWTON_ITERATIONS as nat),
{
    let mut z = start;
    let mut i: u32 = 0;
    while i < NEWTON_ITERATIONS
        invariant
            i <= NEWTON_ITERATIONS,
            newton_spec(start@, NEWTON_ITERATIONS as nat) == newton_spec(
                z@,
                (NEWTON_ITERATIONS - i) as nat,
            ),
        decreases NEWTON_ITERATIONS - i,
    {
        match newton_step(z) {
            Some(next) => {
                z = next;
                i = i + 1;
            },
            None => {
                return z;
            },
        }
    }
    z
}

/// What a kernel reports for one point.
#[derive(Clone, Copy, Debug, PartialEq, Eq, Structural)]
pub enum KernelOutput {
    /// The normalized escape count of the Mandelbrot kernel.
    EscapeCount(Fixed),
    /// The point that Newton's iteration ended at.
    Root(Complex),
}

/// What the kernel of the given fractal reports for a point.
pub open spec fn kernel_spec(fractal_type: FractalType, point: ComplexSpec) -> KernelOutput {
    match fractal_type {
        FractalType::Mandelbrot => KernelOutput::EscapeCount(
            Fixed { raw: mandelbrot_spec(point) as i64 },
        ),
        FractalType::Newton => KernelOutput::Root(
            stored(newton_spec(point, NEWTON_ITERATIONS as nat)),
        ),
    }
}

/// Runs the kernel of the given fractal on one point.
pub fn run_kernel(fractal_type: FractalType, point: Complex) -> (r: KernelOutput)
    ensures
        r == kernel_spec(fractal_type, point@),
{
    match fractal_type {
        FractalType::Mandelbrot => KernelOutput::EscapeCount(mandelbrot_iterations(point)),
        FractalType::Newton => KernelOutput::Root(newton_iterate(point)),
    }
}

} // verus!
