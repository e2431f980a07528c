//! The view transform: an affine map from normalized screen coordinates to
//! the complex plane, changed only by panning and by zooming about an anchor.
//!
//! Every change composes a new operator on the right of the transform, so the
//! operator acts on screen coordinates before the transform does.

use vstd::prelude::*;
use crate::complex::storable;
use crate::complex::view_of;
use crate::complex::Complex;
use crate::complex::ComplexSpec;
use crate::fixed::lemma_mul_raw_neg;
use crate::fixed::lemma_mul_raw_one;
use crate::fixed::lemma_mul_raw_whole;
use crate::fixed::lemma_mul_raw_zero;
use crate::fixed::mul_raw;
use crate::fixed::mul_wide;
use crate::fixed::narrow;
use crate::fixed::scale;
use crate::fixed::Fixed;
use crate::fixed::SCALE;
use crate::matrix::compose;
use crate::matrix::homogeneous;
use crate::matrix::is_affine;
use crate::matrix::is_invertible;
use crate::matrix::lemma_transform_unit_vectors;
use crate::matrix::matrix_fits;
use crate::matrix::negated;
use crate::matrix::scaled;
use crate::matrix::scaling;
use crate::matrix::storable_matrix;
use crate::matrix::transform_vector;
use crate::matrix::translation;
use crate::matrix::vector2_fits;
use crate::matrix::Matrix3;
use crate::matrix::Matrix3Spec;
use crate::matrix::Vector2;
use crate::matrix::Vector2Spec;
use crate::matrix::Vector3;
use crate::matrix::Vector3Spec;

verus! {

/// The raw value of the width of the plane that the initial view shows: four.
pub open spec fn viewport_width() -> int {
    4 * scale()
}

/// The raw value of half that width, by which an anchor is scaled.
pub open spec fn half_width() -> int {
    2 * scale()
}

/// The initial transform: scale two, moved by `(-0.25, 0)`.
pub open spec fn initial_spec() -> Matrix3Spec {
    Matrix3Spec {
        x: Vector3Spec { x: 2 * scale(), y: 0, z: 0 },
        y: Vector3Spec { x: 0, y: 2 * scale(), z: 0 },
        z: Vector3Spec { x: -(scale() / 4), y: 0, z: scale() },
    }
}

/// The transform after a pan: the translation by the displacement times the
/// viewport width, composed on the right of the transform.
pub open spec fn pan_spec(t: Matrix3Spec, displacement: Vector2Spec) -> Matrix3Spec {
    compose(t, translation(scaled(viewport_width(), displacement)))
}

/// The place of an anchor in the coordinates that the transform acts on: the
/// anchor times half the viewport width.
pub open spec fn anchor_offset(anchor: Vector2Spec) -> Vector2Spec {
    scaled(half_width(), anchor)
}

/// The transform after a zoom: the translation to the anchor, the scaling by
/// the factor and the translation back, composed in that order on the right
/// of the transform.
pub open spec fn zoom_spec(t: Matrix3Spec, factor: int, anchor: Vector2Spec) -> Matrix3Spec {
    compose(
        compose(compose(t, translation(anchor_offset(anchor))), scaling(factor)),
        translation(scaled(-half_width(), anchor)),
    )
}

/// The point of the complex plane that a point of the screen is shown at:
/// the transform applied to `(x, y, 1)`, with the second coordinate negated
/// because the screen's grows downward and the imaginary axis upward.
pub open spec fn map_point_spec(t: Matrix3Spec, point: Vector2Spec) -> ComplexSpec {
    let image = transform_vector(t, homogeneous(point));
    ComplexSpec { re: image.x, im: -image.y }
}

/// Why a change of the transform was not made.
#[derive(Clone, Copy, Debug, PartialEq, Eq, Structural)]
pub enum TransformError {
    /// An operator of the change, or the transform after it, has an entry
    /// that cannot be stored.
    Overflow,
    /// The transform after the change would have no inverse.
    Degenerate,
}

/// The transform after a pan where the translation and the result can be
/// stored, and nothing otherwise.
pub open spec fn checked_pan(t: Matrix3Spec, displacement: Vector2Spec) -> Option<Matrix3Spec> {
    if vector2_fits(scaled(viewport_width(), displacement)) {
        storable_matrix(pan_spec(t, displacement))
    } else {
        None
    }
}

/// The transform after a zoom, or the reason why there is none: an overflow
/// where a translation of the zoom or its result cannot be stored, and else
/// a degenerate result where the result has no inverse.
pub open spec fn checked_zoom(t: Matrix3Spec, factor: int, anchor: Vector2Spec) -> Result<
    Matrix3Spec,
    TransformError,
> {
    if !vector2_fits(anchor_offset(anchor)) || !vector2_fits(negated(anchor_offset(anchor)))
        || !matrix_fits(zoom_spec(t, factor, anchor)) {
        Err(TransformError::Overflow)
    } else if !is_invertible(zoom_spec(t, factor, anchor)) {
        Err(TransformError::Degenerate)
    } else {
        Ok(zoom_spec(t, factor, anchor))
    }
}

/// A pan leaves the first two columns as they are and moves the last one to
/// the image of the translation's offset.
pub proof fn lemma_pan_closed_form(t: Matrix3Spec, displacement: Vector2Spec)
    ensures
        pan_spec(t, displacement) == (Matrix3Spec {
            x: t.x,
            y: t.y,
            z: transform_vector(t, homogeneous(scaled(viewport_width(), displacement))),
        }),
        scaled(viewport_width(), displacement) == (Vector2Spec {
            x: 4 * displacement.x,
            y: 4 * displacement.y,
        }),
{
    lemma_mul_raw_whole(4, displacement.x);
    lemma_mul_raw_whole(4, displacement.y);
    lemma_compose_translation(t, scaled(viewport_width(), displacement));
}

/// Composing a translation on the right leaves the first two columns as they
/// are and moves the last one to the image of the translation's offset.
pub proof fn lemma_compose_translation(t: Matrix3Spec, offset: Vector2Spec)
    ensures
        compose(t, translation(offset)) == (Matrix3Spec {
            x: t.x,
            y: t.y,
            z: transform_vector(t, homogeneous(offset)),
        }),
{
    lemma_transform_unit_vectors(t, scale(), offset);
    lemma_mul_raw_one(t.x.x);
    lemma_mul_raw_one(t.x.y);
    lemma_mul_raw_one(t.x.z);
    lemma_mul_raw_one(t.y.x);
    lemma_mul_raw_one(t.y.y);
    lemma_mul_raw_one(t.y.z);
}

/// Composing a scaling on the right multiplies the first two columns by the
/// factor and leaves the last one as it is.
pub proof fn lemma_compose_scaling(t: Matrix3Spec, factor: int)
    ensures
        compose(t, scaling(factor)) == (Matrix3Spec {
            x: column_times(t.x, factor),
            y: column_times(t.y, factor),
            z: t.z,
        }),
{
    lemma_transform_unit_vectors(t, factor, Vector2Spec { x: 0, y: 0 });
}

/// A column with each entry multiplied by the number with raw value `k`.
pub open spec fn column_times(v: Vector3Spec, k: int) -> Vector3Spec {
    Vector3Spec { x: mul_raw(v.x, k), y: mul_raw(v.y, k), z: mul_raw(v.z, k) }
}

/// The transform after a zoom, entry by entry: the first two columns are
/// multiplied by the factor, and the last column is the image of the anchor
/// under the old transform less its image under the new first two columns.
pub open spec fn zoom_closed_form(t: Matrix3Spec, factor: int, at: Vector2Spec) -> Matrix3Spec {
    let x = column_times(t.x, factor);
    let y = column_times(t.y, factor);
    Matrix3Spec {
        x: x,
        y: y,
        z: Vector3Spec {
            x: mul_raw(t.x.x, at.x) + mul_raw(t.y.x, at.y) + t.z.x - mul_raw(x.x, at.x) - mul_raw(
                y.x,
                at.y,
            ),
            y: mul_raw(t.x.y, at.x) + mul_raw(t.y.y, at.y) + t.z.y - mul_raw(x.y, at.x) - mul_raw(
                y.y,
                at.y,
            ),
            z: mul_raw(t.x.z, at.x) + mul_raw(t.y.z, at.y) + t.z.z - mul_raw(x.z, at.x) - mul_raw(
                y.z,
                at.y,
            ),
        },
    }
}

/// The three compositions of a zoom come to its closed form, and the anchor
/// is offset by exactly twice its value.
pub proof fn lemma_zoom_closed_form(t: Matrix3Spec, factor: int, anchor: Vector2Spec)
    ensures
        zoom_spec(t, factor, anchor) == zoom_closed_form(t, factor, anchor_offset(anchor)),
        anchor_offset(anchor) == (Vector2Spec { x: 2 * anchor.x, y: 2 * anchor.y }),
        scaled(-half_width(), anchor) == negated(anchor_offset(anchor)),
{
    let at = anchor_offset(anchor);
    let back = scaled(-half_width(), anchor);
    lemma_mul_raw_whole(2, anchor.x);
    lemma_mul_raw_whole(2, anchor.y);
    lemma_mul_raw_whole(-2, anchor.x);
    lemma_mul_raw_whole(-2, anchor.y);
    assert(-half_width() == (-2) * scale());
    assert(back == negated(at));
    let m1 = compose(t, translation(at));
    lemma_compose_translation(t, at);
    lemma_transform_unit_vectors(t, scale(), at);
    let m2 = compose(m1, scaling(factor));
    lemma_compose_scaling(m1, factor);
    let m3 = compose(m2, translation(back));
    lemma_compose_translation(m2, back);
    lemma_transform_unit_vectors(m2, scale(), back);
    lemma_mul_raw_neg(m2.x.x, at.x);
    lemma_mul_raw_neg(m2.x.y, at.x);
    lemma_mul_raw_neg(m2.x.z, at.x);
    lemma_mul_raw_neg(m2.y.x, at.y);
    lemma_mul_raw_neg(m2.y.y, at.y);
    lemma_mul_raw_neg(m2.y.z, at.y);
    assert(m3.z == zoom_closed_form(t, factor, at).z);
}

/// A zoom leaves the image of its anchor where it was: the point of the
/// screen that the zoom is anchored at, in the coordinates that the transform
/// acts on, is mapped to the same point of the plane before and after, for
/// every transform, factor and anchor, and exactly.
pub proof fn lemma_zoom_fixes_anchor(t: Matrix3Spec, factor: int, anchor: Vector2Spec)
    ensures
        map_point_spec(zoom_spec(t, factor, anchor), anchor_offset(anchor)) == map_point_spec(
            t,
            anchor_offset(anchor),
        ),
{
    let at = anchor_offset(anchor);
    lemma_zoom_closed_form(t, factor, anchor);
    lemma_transform_unit_vectors(t, scale(), at);
    lemma_transform_unit_vectors(zoom_spec(t, factor, anchor), scale(), at);
}

/// A zoom by the factor one changes nothing, whatever its anchor.
pub proof fn lemma_zoom_by_one_is_identity(t: Matrix3Spec, anchor: Vector2Spec)
    ensures
        zoom_spec(t, scale(), anchor) == t,
{
    lemma_zoom_closed_form(t, scale(), anchor);
    lemma_mul_raw_one(t.x.x);
    lemma_mul_raw_one(t.x.y);
    lemma_mul_raw_one(t.x.z);
    lemma_mul_raw_one(t.y.x);
    lemma_mul_raw_one(t.y.y);
    lemma_mul_raw_one(t.y.z);
}

/// Where the anchor is the centre of the screen or the factor is one, a zoom
/// leaves the image of the point with the anchor's own coordinates where it
/// was.
pub proof fn lemma_zoom_fixes_point_at_anchor(t: Matrix3Spec, factor: int, anchor: Vector2Spec)
    requires
        (anchor.x == 0 && anchor.y == 0) || factor == scale(),
    ensures
        map_point_spec(zoom_spec(t, factor, anchor), anchor) == map_point_spec(t, anchor),
{
    if factor == scale() {
        lemma_zoom_by_one_is_identity(t, anchor);
    } else {
        lemma_zoom_closed_form(t, factor, anchor);
        lemma_zoom_fixes_anchor(t, factor, anchor);
    }
}

/// A pan and a zoom keep the last row `(0, 0, 1)`, and a pan keeps the upper
/// left block.
pub proof fn lemma_changes_stay_affine(
    t: Matrix3Spec,
    displacement: Vector2Spec,
    factor: int,
    anchor: Vector2Spec,
)
    requires
        is_affine(t),
    ensures
        is_affine(pan_spec(t, displacement)),
        is_invertible(pan_spec(t, displacement)) == is_invertible(t),
        is_affine(zoom_spec(t, factor, anchor)),
{
    lemma_pan_closed_form(t, displacement);
    lemma_zoom_closed_form(t, factor, anchor);
    lemma_transform_unit_vectors(t, scale(), scaled(viewport_width(), displacement));
    lemma_mul_raw_zero(factor);
    lemma_mul_raw_zero(scaled(viewport_width(), displacement).x);
    lemma_mul_raw_zero(scaled(viewport_width(), displacement).y);
    lemma_mul_raw_zero(anchor_offset(anchor).x);
    lemma_mul_raw_zero(anchor_offset(anchor).y);
}

/// An affine map of the plane that has an inverse, from normalized screen
/// coordinates to the complex plane.
#[derive(Clone, Copy, Debug, PartialEq, Eq)]
pub struct ViewTransform {
    matrix: Matrix3,
}

impl View for ViewTransform {
    type V = Matrix3Spec;

    closed spec fn view(&self) -> Matrix3Spec {
        self.matrix@
    }
}

/// The mathematical value of an optional transform.
pub open spec fn transform_view_of(r: Option<ViewTransform>) -> Option<Matrix3Spec> {
    match r {
        Some(t) => Some(t@),
        None => None,
    }
}

/// The mathematical value of the outcome of a change.
pub open spec fn outcome_view_of(r: Result<ViewTransform, TransformError>) -> Result<
    Matrix3Spec,
    TransformError,
> {
    match r {
        Ok(t) => Ok(t@),
        Err(e) => Err(e),
    }
}

/// Twice a raw value and its negation, or `None` where one of the two cannot
/// be stored.
fn doubled(a: Fixed) -> (r: Option<(Fixed, Fixed)>)
    ensures
        r.is_some() <==> crate::fixed::fits(2 * a@) && crate::fixed::fits(-(2 * a@)),
        r matches Some(pair) ==> pair.0@ == 2 * a@ && pair.1@ == -(2 * a@),
{
    let twice: i128 = 2 * (a.raw as i128);
    match (narrow(twice), narrow(-twice)) {
        (Some(forth), Some(back)) => Some((forth, back)),
        _ => None,
    }
}

/// A column with each entry multiplied by `k`, or `None` where an entry of
/// the result cannot be stored.
fn column_scaled(v: Vector3, k: Fixed) -> (r: Option<Vector3>)
    ensures
        crate::matrix::vector3_view_of(r) == crate::matrix::storable_vector3(
            column_times(v@, k@),
        ),
{
    match (
        narrow(mul_wide(v.x.raw, k.raw)),
        narrow(mul_wide(v.y.raw, k.raw)),
        narrow(mul_wide(v.z.raw, k.raw)),
    ) {
        (Some(x), Some(y), Some(z)) => Some(Vector3 { x, y, z }),
        _ => None,
    }
}

/// One entry of the last column after a zoom.
fn zoomed_offset(a: Fixed, b: Fixed, c: Fixed, x: Fixed, y: Fixed, at: Vector2) -> (r: Option<
    Fixed,
>)
    ensures
        r.is_some() <==> crate::fixed::fits(
            mul_raw(a@, at@.x) + mul_raw(b@, at@.y) + c@ - mul_raw(x@, at@.x) - mul_raw(
                y@,
                at@.y,
            ),
        ),
        r matches Some(v) ==> v@ == mul_raw(a@, at@.x) + mul_raw(b@, at@.y) + c@ - mul_raw(
            x@,
            at@.x,
        ) - mul_raw(y@, at@.y),
{
    narrow(
        mul_wide(a.raw, at.x.raw) + mul_wide(b.raw, at.y.raw) + (c.raw as i128) - mul_wide(
            x.raw,
            at.x.raw,
        ) - mul_wide(y.raw, at.y.raw),
    )
}

impl ViewTransform {
    #[verifier::type_invariant]
    spec fn valid(self) -> bool {
        is_affine(self.matrix@) && is_invertible(self.matrix@)
    }

    /// What holds of every transform: its last row is `(0, 0, 1)` and it has
    /// an inverse.
    pub open spec fn well_formed(&self) -> bool {
        is_affine(self@) && is_invertible(self@)
    }

    /// The initial transform, which has scale two and shows the point
    /// `(-0.25, 0)` at the centre of the screen.
    pub fn initial() -> (r: ViewTransform)
        ensures
            r@ == initial_spec(),
            r.well_formed(),
            map_point_spec(r@, Vector2Spec { x: 0, y: 0 }) == (ComplexSpec {
                re: -(scale() / 4),
                im: 0,
            }),
    {
        let zero = Fixed { raw: 0 };
        let two = Fixed { raw: 2 * SCALE };
        let matrix = Matrix3 {
            x: Vector3 { x: two, y: zero, z: zero },
            y: Vector3 { x: zero, y: two, z: zero },
            z: Vector3 { x: Fixed { raw: -(SCALE / 4) }, y: zero, z: Fixed { raw: SCALE } },
        };
        proof {
            lemma_transform_unit_vectors(matrix@, scale(), Vector2Spec { x: 0, y: 0 });
            lemma_mul_raw_zero(2 * scale());
            lemma_mul_raw_zero(0);
            assert((2 * scale()) * (2 * scale()) != 0int * 0int) by (nonlinear_arith)
                requires
                    scale() == 0x1_0000_0000,
            ;
        }
        ViewTransform { matrix }
    }

    /// The transform with the given matrix, or `None` where the matrix's last
    /// row is not `(0, 0, 1)` or it has no inverse.
    pub fn from_matrix(matrix: Matrix3) -> (r: Option<ViewTransform>)
        ensures
            r.is_some() <==> is_affine(matrix@) && is_invertible(matrix@),
            r matches Some(t) ==> t@ == matrix@,
    {
        if matrix.is_affine() && matrix.is_invertible() {
            Some(ViewTransform { matrix })
        } else {
            None
        }
    }

    /// The matrix of the transform.
    pub fn matrix(&self) -> (r: Matrix3)
        ensures
            r@ == self@,
            self.well_formed(),
    {
        proof {
            use_type_invariant(self);
        }
        self.matrix
    }

    /// The transform after a pan by `displacement`, which is in units of the
    /// screen's width: the translation by four times the displacement,
    /// composed on the right. `None` where that translation or the result
    /// cannot be stored.
    pub fn pan(&self, displacement: Vector2) -> (r: Option<ViewTransform>)
        ensures
            transform_view_of(r) == checked_pan(self@, displacement@),
            r matches Some(t) ==> t.well_formed(),
    {
        proof {
            use_type_invariant(self);
            lemma_pan_closed_form(self@, displacement@);
            lemma_changes_stay_affine(self@, displacement@, 0, Vector2Spec { x: 0, y: 0 });
        }
        let dx = narrow(4 * (displacement.x.raw as i128));
        let dy = narrow(4 * (displacement.y.raw as i128));
        match (dx, dy) {
            (Some(x), Some(y)) => {
                let one = Fixed { raw: SCALE };
                match self.matrix.transform(Vector3 { x, y, z: one }) {
                    Some(z) => Some(
                        ViewTransform { matrix: Matrix3 { x: self.matrix.x, y: self.matrix.y, z } },
                    ),
                    None => None,
                }
            },
            _ => None,
        }
    }

    /// The transform after a zoom by `factor` about `anchor`, which is in
    /// units of the screen's width and height from its centre: the
    /// translation to twice the anchor, the scaling and the translation back,
    /// composed on the right. A factor above one shows more of the plane.
    pub fn zoom(&self, factor: Fixed, anchor: Vector2) -> (r: Result<
        ViewTransform,
        TransformError,
    >)
        ensures
            outcome_view_of(r) == checked_zoom(self@, factor@, anchor@),
            r matches Ok(t) ==> t.well_formed(),
    {
        proof {
            use_type_invariant(self);
            lemma_zoom_closed_form(self@, factor@, anchor@);
            lemma_changes_stay_affine(self@, Vector2Spec { x: 0, y: 0 }, factor@, anchor@);
        }
        let t = self.matrix;
        let at = match (doubled(anchor.x), doubled(anchor.y)) {
            (Some(x), Some(y)) => Vector2 { x: x.0, y: y.0 },
            _ => {
                return Err(TransformError::Overflow);
            },
        };
        let (x, y) = match (column_scaled(t.x, factor), column_scaled(t.y, factor)) {
            (Some(x), Some(y)) => (x, y),
            _ => {
                return Err(TransformError::Overflow);
            },
        };
        let z = match (
            zoomed_offset(t.x.x, t.y.x, t.z.x, x.x, y.x, at),
            zoomed_offset(t.x.y, t.y.y, t.z.y, x.y, y.y, at),
            zoomed_offset(t.x.z, t.y.z, t.z.z, x.z, y.z, at),
        ) {
            (Some(zx), Some(zy), Some(zz)) => Vector3 { x: zx, y: zy, z: zz },
            _ => {
                return Err(TransformError::Overflow);
            },
        };
        let matrix = Matrix3 { x, y, z };
        if matrix.is_invertible() {
            Ok(ViewTransform { matrix })
        } else {
            Err(TransformError::Degenerate)
        }
    }

    /// The point of the complex plane shown at `point`, which is in
    /// normalized device coordinates, or `None` where a part of it cannot be
    /// stored.
    pub fn map_point(&self, point: Vector2) -> (r: Option<Complex>)
        ensures
            view_of(r) == storable(map_point_spec(self@, point@)),
    {
        let one = Fixed { raw: SCALE };
        let t = &self.matrix;
        let re = narrow(
            mul_wide(t.x.x.raw, point.x.raw) + mul_wide(t.y.x.raw, point.y.raw) + mul_wide(
                t.z.x.raw,
                one.raw,
            ),
        );
        let im = narrow(
            -(mul_wide(t.x.y.raw, point.x.raw) + mul_wide(t.y.y.raw, point.y.raw) + mul_wide(
                t.z.y.raw,
                one.raw,
            )),
        );
        match (re, im) {
            (Some(re), Some(im)) => Some(Complex { re, im }),
            _ => None,
        }
    }
}

} // verus!
