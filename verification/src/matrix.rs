//! Vectors of two and three components and 3x3 matrices over fixed-point
//! numbers. A matrix is stored by its columns, and a matrix acts on a column
//! vector from the left.

use vstd::prelude::*;
use crate::fixed::fits;
use crate::fixed::lemma_mul_raw_one;
use crate::fixed::lemma_mul_raw_zero;
use crate::fixed::mul_raw;
use crate::fixed::mul_wide;
use crate::fixed::narrow;
use crate::fixed::scale;
use crate::fixed::Fixed;
use crate::fixed::SCALE;

verus! {

/// A vector of two raw values of any size.
pub struct Vector2Spec {
    pub x: int,
    pub y: int,
}

/// A vector of three raw values of any size.
pub struct Vector3Spec {
    pub x: int,
    pub y: int,
    pub z: int,
}

/// A 3x3 matrix of raw values of any size, by its columns.
pub struct Matrix3Spec {
    pub x: Vector3Spec,
    pub y: Vector3Spec,
    pub z: Vector3Spec,
}

/// A vector of two fixed-point numbers.
#[derive(Clone, Copy, Debug, PartialEq, Eq, Structural)]
pub struct Vector2 {
    pub x: Fixed,
    pub y: Fixed,
}

/// A vector of three fixed-point numbers.
#[derive(Clone, Copy, Debug, PartialEq, Eq, Structural)]
pub struct Vector3 {
    pub x: Fixed,
    pub y: Fixed,
    pub z: Fixed,
}

/// A 3x3 matrix of fixed-point numbers, by its columns.
#[derive(Clone, Copy, Debug, PartialEq, Eq, Structural)]
pub struct Matrix3 {
    pub x: Vector3,
    pub y: Vector3,
    pub z: Vector3,
}

impl View for Vector2 {
    type V = Vector2Spec;

    open spec fn view(&self) -> Vector2Spec {
        Vector2Spec { x: self.x@, y: self.y@ }
    }
}

impl View for Vector3 {
    type V = Vector3Spec;

    open spec fn view(&self) -> Vector3Spec {
        Vector3Spec { x: self.x@, y: self.y@, z: self.z@ }
    }
}

impl View for Matrix3 {
    type V = Matrix3Spec;

    open spec fn view(&self) -> Matrix3Spec {
        Matrix3Spec { x: self.x@, y: self.y@, z: self.z@ }
    }
}

/// Whether every component can be stored.
pub open spec fn vector2_fits(v: Vector2Spec) -> bool {
    fits(v.x) && fits(v.y)
}

/// Whether every component can be stored.
pub open spec fn vector3_fits(v: Vector3Spec) -> bool {
    fits(v.x) && fits(v.y) && fits(v.z)
}

/// Whether every entry can be stored.
pub open spec fn matrix_fits(m: Matrix3Spec) -> bool {
    vector3_fits(m.x) && vector3_fits(m.y) && vector3_fits(m.z)
}

/// The vector with both components negated.
pub open spec fn negated(v: Vector2Spec) -> Vector2Spec {
    Vector2Spec { x: -v.x, y: -v.y }
}

/// The vector with both components multiplied by the number with raw value
/// `k`, each product rounded toward zero.
pub open spec fn scaled(k: int, v: Vector2Spec) -> Vector2Spec {
    Vector2Spec { x: mul_raw(k, v.x), y: mul_raw(k, v.y) }
}

/// The point `(x, y)` of the plane in homogeneous coordinates: `(x, y, 1)`.
pub open spec fn homogeneous(v: Vector2Spec) -> Vector3Spec {
    Vector3Spec { x: v.x, y: v.y, z: scale() }
}

/// The identity matrix.
pub open spec fn identity() -> Matrix3Spec {
    Matrix3Spec {
        x: Vector3Spec { x: scale(), y: 0, z: 0 },
        y: Vector3Spec { x: 0, y: scale(), z: 0 },
        z: Vector3Spec { x: 0, y: 0, z: scale() },
    }
}

/// The matrix that moves every point of the plane by `v`.
pub open spec fn translation(v: Vector2Spec) -> Matrix3Spec {
    Matrix3Spec {
        x: Vector3Spec { x: scale(), y: 0, z: 0 },
        y: Vector3Spec { x: 0, y: scale(), z: 0 },
        z: Vector3Spec { x: v.x, y: v.y, z: scale() },
    }
}

/// The matrix that multiplies both coordinates of every point of the plane by
/// the number with raw value `factor`.
pub open spec fn scaling(factor: int) -> Matrix3Spec {
    Matrix3Spec {
        x: Vector3Spec { x: factor, y: 0, z: 0 },
        y: Vector3Spec { x: 0, y: factor, z: 0 },
        z: Vector3Spec { x: 0, y: 0, z: scale() },
    }
}

/// The matrix applied to a column vector: the columns weighted by the
/// vector's components, each of the nine products rounded toward zero.
pub open spec fn transform_vector(m: Matrix3Spec, v: Vector3Spec) -> Vector3Spec {
    Vector3Spec {
        x: mul_raw(m.x.x, v.x) + mul_raw(m.y.x, v.y) + mul_raw(m.z.x, v.z),
        y: mul_raw(m.x.y, v.x) + mul_raw(m.y.y, v.y) + mul_raw(m.z.y, v.z),
        z: mul_raw(m.x.z, v.x) + mul_raw(m.y.z, v.y) + mul_raw(m.z.z, v.z),
    }
}

/// The matrix product `a * b`, which applies `b` first and then `a`: each
/// column of it is `a` applied to the matching column of `b`.
pub open spec fn compose(a: Matrix3Spec, b: Matrix3Spec) -> Matrix3Spec {
    Matrix3Spec {
        x: transform_vector(a, b.x),
        y: transform_vector(a, b.y),
        z: transform_vector(a, b.z),
    }
}

/// The matrix with rows and columns exchanged.
pub open spec fn transposed(m: Matrix3Spec) -> Matrix3Spec {
    Matrix3Spec {
        x: Vector3Spec { x: m.x.x, y: m.y.x, z: m.z.x },
        y: Vector3Spec { x: m.x.y, y: m.y.y, z: m.z.y },
        z: Vector3Spec { x: m.x.z, y: m.y.z, z: m.z.z },
    }
}

/// The row numbered `r` from zero.
pub open spec fn row_of(m: Matrix3Spec, r: int) -> Vector3Spec
    recommends
        0 <= r < 3,
{
    if r == 0 {
        Vector3Spec { x: m.x.x, y: m.y.x, z: m.z.x }
    } else if r == 1 {
        Vector3Spec { x: m.x.y, y: m.y.y, z: m.z.y }
    } else {
        Vector3Spec { x: m.x.z, y: m.y.z, z: m.z.z }
    }
}

/// Whether the matrix maps the plane `z = 1` to itself: its last row is
/// `(0, 0, 1)`.
pub open spec fn is_affine(m: Matrix3Spec) -> bool {
    m.x.z == 0 && m.y.z == 0 && m.z.z == scale()
}

/// Whether the matrix has an inverse as a map of the plane: the determinant
/// of its upper left 2x2 block is not zero.
pub open spec fn is_invertible(m: Matrix3Spec) -> bool {
    m.x.x * m.y.y != m.y.x * m.x.y
}

/// A matrix applied to the first unit vector, scaled by `k`, is its first
/// column scaled by `k`; likewise for the second. Applied to a point with
/// weight one it adds the last column as it is.
pub proof fn lemma_transform_unit_vectors(m: Matrix3Spec, k: int, v: Vector2Spec)
    ensures
        transform_vector(m, Vector3Spec { x: k, y: 0, z: 0 }) == (Vector3Spec {
            x: mul_raw(m.x.x, k),
            y: mul_raw(m.x.y, k),
            z: mul_raw(m.x.z, k),
        }),
        transform_vector(m, Vector3Spec { x: 0, y: k, z: 0 }) == (Vector3Spec {
            x: mul_raw(m.y.x, k),
            y: mul_raw(m.y.y, k),
            z: mul_raw(m.y.z, k),
        }),
        transform_vector(m, Vector3Spec { x: 0, y: 0, z: scale() }) == m.z,
        transform_vector(m, homogeneous(v)) == (Vector3Spec {
            x: mul_raw(m.x.x, v.x) + mul_raw(m.y.x, v.y) + m.z.x,
            y: mul_raw(m.x.y, v.x) + mul_raw(m.y.y, v.y) + m.z.y,
            z: mul_raw(m.x.z, v.x) + mul_raw(m.y.z, v.y) + m.z.z,
        }),
{
    lemma_mul_raw_zero(m.x.x);
    lemma_mul_raw_zero(m.x.y);
    lemma_mul_raw_zero(m.x.z);
    lemma_mul_raw_zero(m.y.x);
    lemma_mul_raw_zero(m.y.y);
    lemma_mul_raw_zero(m.y.z);
    lemma_mul_raw_zero(m.z.x);
    lemma_mul_raw_zero(m.z.y);
    lemma_mul_raw_zero(m.z.z);
    lemma_mul_raw_one(m.z.x);
    lemma_mul_raw_one(m.z.y);
    lemma_mul_raw_one(m.z.z);
}

/// The sum of three rounded products, computed without overflow.
fn dot3(a0: i64, a1: i64, a2: i64, b0: i64, b1: i64, b2: i64) -> (r: i128)
    ensures
        r == mul_raw(a0 as int, b0 as int) + mul_raw(a1 as int, b1 as int) + mul_raw(
            a2 as int,
            b2 as int,
        ),
{
    mul_wide(a0, b0) + mul_wide(a1, b1) + mul_wide(a2, b2)
}

/// The mathematical value of an optional stored vector.
pub open spec fn vector3_view_of(r: Option<Vector3>) -> Option<Vector3Spec> {
    match r {
        Some(v) => Some(v@),
        None => None,
    }
}

/// The mathematical value of an optional stored matrix.
pub open spec fn matrix_view_of(r: Option<Matrix3>) -> Option<Matrix3Spec> {
    match r {
        Some(m) => Some(m@),
        None => None,
    }
}

/// The vector itself where every component can be stored, and nothing
/// otherwise.
pub open spec fn storable_vector3(v: Vector3Spec) -> Option<Vector3Spec> {
    if vector3_fits(v) {
        Some(v)
    } else {
        None
    }
}

/// The matrix itself where every entry can be stored, and nothing otherwise.
pub open spec fn storable_matrix(m: Matrix3Spec) -> Option<Matrix3Spec> {
    if matrix_fits(m) {
        Some(m)
    } else {
        None
    }
}

impl Vector2 {
    /// The vector with the given components.
    pub fn new(x: Fixed, y: Fixed) -> (r: Vector2)
        ensures
            r@ == (Vector2Spec { x: x@, y: y@ }),
    {
        Vector2 { x, y }
    }
}

impl Vector3 {
    /// The vector with the given components.
    pub fn new(x: Fixed, y: Fixed, z: Fixed) -> (r: Vector3)
        ensures
            r@ == (Vector3Spec { x: x@, y: y@, z: z@ }),
    {
        Vector3 { x, y, z }
    }
}

impl Matrix3 {
    /// The identity matrix.
    pub fn identity() -> (r: Matrix3)
        ensures
            r@ == identity(),
    {
        Matrix3::from_scale(Fixed { raw: SCALE })
    }

    /// The matrix that moves every point of the plane by `v`.
    pub fn from_translation(v: Vector2) -> (r: Matrix3)
        ensures
            r@ == translation(v@),
    {
        let zero = Fixed { raw: 0 };
        let one = Fixed { raw: SCALE };
        Matrix3 {
            x: Vector3 { x: one, y: zero, z: zero },
            y: Vector3 { x: zero, y: one, z: zero },
            z: Vector3 { x: v.x, y: v.y, z: one },
        }
    }

    /// The matrix that multiplies both coordinates of every point of the plane
    /// by `value`.
    pub fn from_scale(value: Fixed) -> (r: Matrix3)
        ensures
            r@ == scaling(value@),
    {
        let zero = Fixed { raw: 0 };
        let one = Fixed { raw: SCALE };
        Matrix3 {
            x: Vector3 { x: value, y: zero, z: zero },
            y: Vector3 { x: zero, y: value, z: zero },
            z: Vector3 { x: zero, y: zero, z: one },
        }
    }

    /// The matrix applied to a column vector, or `None` where a component of
    /// the result cannot be stored.
    pub fn transform(&self, v: Vector3) -> (r: Option<Vector3>)
        ensures
            vector3_view_of(r) == storable_vector3(transform_vector(self@, v@)),
    {
        let x = narrow(dot3(self.x.x.raw, self.y.x.raw, self.z.x.raw, v.x.raw, v.y.raw, v.z.raw));
        let y = narrow(dot3(self.x.y.raw, self.y.y.raw, self.z.y.raw, v.x.raw, v.y.raw, v.z.raw));
        let z = narrow(dot3(self.x.z.raw, self.y.z.raw, self.z.z.raw, v.x.raw, v.y.raw, v.z.raw));
        match (x, y, z) {
            (Some(x), Some(y), Some(z)) => Some(Vector3 { x, y, z }),
            _ => None,
        }
    }

    /// The product `self * rhs`, which applies `rhs` first, or `None` where an
    /// entry of it cannot be stored.
    pub fn checked_mul(&self, rhs: &Matrix3) -> (r: Option<Matrix3>)
        ensures
            matrix_view_of(r) == storable_matrix(compose(self@, rhs@)),
    {
        match (self.transform(rhs.x), self.transform(rhs.y), self.transform(rhs.z)) {
            (Some(x), Some(y), Some(z)) => Some(Matrix3 { x, y, z }),
            _ => None,
        }
    }

    /// The matrix with rows and columns exchanged.
    pub fn transpose(&self) -> (r: Matrix3)
        ensures
            r@ == transposed(self@),
    {
        Matrix3 {
            x: Vector3 { x: self.x.x, y: self.y.x, z: self.z.x },
            y: Vector3 { x: self.x.y, y: self.y.y, z: self.z.y },
            z: Vector3 { x: self.x.z, y: self.y.z, z: self.z.z },
        }
    }

    /// The row numbered `r` from zero.
    pub fn row(&self, r: usize) -> (v: Vector3)
        requires
            r < 3,
        ensures
            v@ == row_of(self@, r as int),
    {
        if r == 0 {
            Vector3 { x: self.x.x, y: self.y.x, z: self.z.x }
        } else if r == 1 {
            Vector3 { x: self.x.y, y: self.y.y, z: self.z.y }
        } else {
            Vector3 { x: self.x.z, y: self.y.z, z: self.z.z }
        }
    }

    /// Whether the last row is `(0, 0, 1)`.
    pub fn is_affine(&self) -> (r: bool)
        ensures
            r == is_affine(self@),
    {
        self.x.z.raw == 0 && self.y.z.raw == 0 && self.z.z.raw == SCALE
    }

    /// Whether the upper left 2x2 block has a determinant other than zero.
    pub fn is_invertible(&self) -> (r: bool)
        ensures
            r == is_invertible(self@),
    {
        proof {
            crate::fixed::lemma_product_bounds(self.x.x@, self.y.y@);
            crate::fixed::lemma_product_bounds(self.y.x@, self.x.y@);
        }
        let main: i128 = (self.x.x.raw as i128) * (self.y.y.raw as i128);
        let other: i128 = (self.y.x.raw as i128) * (self.x.y.raw as i128);
        main != other
    }
}

} // verus!
