//! What is drawn: the view transform, the fractal whose kernel runs, and the
//! block of frame parameters that carries the transform to the kernels.

use vstd::prelude::*;
use crate::complex::storable;
use crate::controls::FractalType;
use crate::fixed::lemma_trunc_div_error;
use crate::fixed::scale;
use crate::fixed::trunc_div;
use crate::fixed::Fixed;
use crate::fixed::SCALE;
use crate::kernel::kernel_spec;
use crate::kernel::run_kernel;
use crate::kernel::KernelOutput;
use crate::matrix::row_of;
use crate::matrix::Matrix3;
use crate::matrix::Matrix3Spec;
use crate::matrix::Vector2;
use crate::matrix::Vector2Spec;
use crate::matrix::Vector3Spec;
use crate::transform::checked_pan;
use crate::transform::checked_zoom;
use crate::transform::initial_spec;
use crate::transform::map_point_spec;
use crate::transform::TransformError;
use crate::transform::ViewTransform;

verus! {

/// The frame parameters: the view transform as three rows, each followed by
/// one scalar of padding so that it fills four.
#[derive(Clone, Copy, Debug, PartialEq, Eq)]
pub struct Uniform {
    pub transform_1: [Fixed; 3],
    pub _padding_1: Fixed,
    pub transform_2: [Fixed; 3],
    pub _padding_2: Fixed,
    pub transform_3: [Fixed; 3],
    pub _padding_3: Fixed,
}

impl View for Uniform {
    type V = Seq<int>;

    /// The twelve raw values in the order in which they are laid out.
    open spec fn view(&self) -> Seq<int> {
        seq![
            self.transform_1@[0]@,
            self.transform_1@[1]@,
            self.transform_1@[2]@,
            self._padding_1@,
            self.transform_2@[0]@,
            self.transform_2@[1]@,
            self.transform_2@[2]@,
            self._padding_2@,
            self.transform_3@[0]@,
            self.transform_3@[1]@,
            self.transform_3@[2]@,
            self._padding_3@,
        ]
    }
}

/// A row followed by a zero.
pub open spec fn padded(row: Vector3Spec) -> Seq<int> {
    seq![row.x, row.y, row.z, 0]
}

/// The layout of a matrix as frame parameters: its three rows in order, each
/// padded to four scalars.
pub open spec fn packed(m: Matrix3Spec) -> Seq<int> {
    padded(row_of(m, 0)) + padded(row_of(m, 1)) + padded(row_of(m, 2))
}

impl vstd::std_specs::convert::FromSpecImpl<Matrix3> for Uniform {
    open spec fn obeys_from_spec() -> bool {
        true
    }

    open spec fn from_spec(value: Matrix3) -> Uniform {
        Uniform {
            transform_1: [value.x.x, value.y.x, value.z.x],
            _padding_1: Fixed { raw: 0 },
            transform_2: [value.x.y, value.y.y, value.z.y],
            _padding_2: Fixed { raw: 0 },
            transform_3: [value.x.z, value.y.z, value.z.z],
            _padding_3: Fixed { raw: 0 },
        }
    }
}

impl From<Matrix3> for Uniform {
    /// Packs a matrix row by row, with zeros for padding.
    fn from(value: Matrix3) -> (r: Uniform)
        ensures
            r@ == packed(value@),
    {
        let zero = Fixed { raw: 0 };
        let first = value.row(0);
        let second = value.row(1);
        let third = value.row(2);
        let r = Uniform {
            transform_1: [first.x, first.y, first.z],
            _padding_1: zero,
            transform_2: [second.x, second.y, second.z],
            _padding_2: zero,
            transform_3: [third.x, third.y, third.z],
            _padding_3: zero,
        };
        assert(r@ =~= packed(value@));
        r
    }
}

/// The name of the kernel's entry point for each fractal.
pub open spec fn entry_point_spec(fractal_type: FractalType) -> Seq<char> {
    match fractal_type {
        FractalType::Mandelbrot => "mandelbrot"@,
        FractalType::Newton => "newton"@,
    }
}

/// What the kernel of a fractal reports for a point of the screen, which is
/// in normalized device coordinates: the kernel's output at the point of the
/// plane that is shown there. Nothing where that point cannot be stored.
pub open spec fn evaluate_spec(
    t: Matrix3Spec,
    fractal_type: FractalType,
    point: Vector2Spec,
) -> Option<KernelOutput> {
    match storable(map_point_spec(t, point)) {
        Some(c) => Some(kernel_spec(fractal_type, c)),
        None => None,
    }
}

/// The normalized device coordinate of the centre of the pixel numbered
/// `index` of the `count` pixels along an axis: `(2 index + 1) / count - 1`.
pub open spec fn pixel_center_spec(index: int, count: int) -> int
    recommends
        0 <= index < count,
{
    trunc_div((2 * index + 1) * scale(), count) - scale()
}

/// The centre of the pixel numbered `i`, row by row from the top left, of a
/// grid that is `width` pixels wide and `height` pixels high.
pub open spec fn pixel_point_spec(i: int, width: int, height: int) -> Vector2Spec
    recommends
        0 <= i < width * height,
{
    Vector2Spec { x: pixel_center_spec(i % width, width), y: pixel_center_spec(i / width, height) }
}

/// The normalized device coordinate of the centre of a pixel.
fn pixel_center(index: u32, count: u32) -> (r: Fixed)
    requires
        index < count,
    ensures
        r@ == pixel_center_spec(index as int, count as int),
{
    let odd: i128 = 2 * (index as i128) + 1;
    let numerator: i128 = odd * 0x1_0000_0000i128;
    let q: i128 = numerator / (count as i128);
    proof {
        lemma_trunc_div_error(numerator as int, count as int);
        assert(q * count <= numerator);
        assert(q < 2 * scale()) by (nonlinear_arith)
            requires
                q * count <= numerator,
                numerator == odd * scale(),
                odd < 2 * count,
                scale() > 0,
                count > 0,
        ;
    }
    Fixed { raw: (q - (SCALE as i128)) as i64 }
}

/// The state of the drawing: the transform, the fractal shown, and whether
/// the frame parameters have to be published again.
pub struct FractalView {
    view_transform: ViewTransform,
    fractal_type: FractalType,
    dirty: bool,
}

impl FractalView {
    /// The matrix of the current transform.
    pub closed spec fn transform(&self) -> Matrix3Spec {
        self.view_transform@
    }

    /// The fractal whose kernel runs.
    pub closed spec fn selected(&self) -> FractalType {
        self.fractal_type
    }

    /// Whether the transform has changed since it was last published.
    pub closed spec fn needs_publish(&self) -> bool {
        self.dirty
    }

    /// The initial view: the initial transform, the Mandelbrot kernel, and
    /// frame parameters that have not been published yet.
    pub fn new() -> (r: FractalView)
        ensures
            r.transform() == initial_spec(),
            r.selected() == FractalType::Mandelbrot,
            r.needs_publish(),
    {
        FractalView {
            view_transform: ViewTransform::initial(),
            fractal_type: FractalType::Mandelbrot,
            dirty: true,
        }
    }

    /// Pans by `displacement`, which is in units of the screen's width. Where
    /// the pan cannot be stored the view stays as it is.
    pub fn translate(&mut self, displacement: Vector2) -> (r: Result<(), TransformError>)
        ensures
            final(self).selected() == old(self).selected(),
            r.is_ok() == checked_pan(old(self).transform(), displacement@).is_some(),
            r matches Err(e) ==> e == TransformError::Overflow,
            final(self).transform() == match checked_pan(old(self).transform(), displacement@) {
                Some(t) => t,
                None => old(self).transform(),
            },
            final(self).needs_publish() == (r.is_ok() || old(self).needs_publish()),
    {
        match self.view_transform.pan(displacement) {
            Some(t) => {
                self.view_transform = t;
                self.dirty = true;
                Ok(())
            },
            None => Err(TransformError::Overflow),
        }
    }

    /// Zooms by `factor` about `on_point`, which is in units of the screen's
    /// width and height from its centre. Where the zoom cannot be stored or
    /// would leave no inverse the view stays as it is.
    pub fn zoom(&mut self, factor: Fixed, on_point: Vector2) -> (r: Result<(), TransformError>)
        ensures
            final(self).selected() == old(self).selected(),
            r.is_ok() == checked_zoom(old(self).transform(), factor@, on_point@).is_ok(),
            r matches Err(e) ==> checked_zoom(old(self).transform(), factor@, on_point@) == Err::<
                Matrix3Spec,
                TransformError,
            >(e),
            final(self).transform() == match checked_zoom(
                old(self).transform(),
                factor@,
                on_point@,
            ) {
                Ok(t) => t,
                Err(_) => old(self).transform(),
            },
            final(self).needs_publish() == (r.is_ok() || old(self).needs_publish()),
    {
        match self.view_transform.zoom(factor, on_point) {
            Ok(t) => {
                self.view_transform = t;
                self.dirty = true;
                Ok(())
            },
            Err(e) => Err(e),
        }
    }

    /// The current transform.
    pub fn get_view_transform(&self) -> (r: ViewTransform)
        ensures
            r@ == self.transform(),
            r.well_formed(),
    {
        let m = self.view_transform.matrix();
        self.view_transform
    }

    /// The fractal whose kernel runs.
    pub fn fractal_type(&self) -> (r: FractalType)
        ensures
            r == self.selected(),
    {
        self.fractal_type
    }

    /// Selects the kernel of `fractal_type` and returns the name of its entry
    /// point. The transform and the frame parameters stay as they are.
    pub fn set_fractal_type(&mut self, fractal_type: FractalType) -> (r: &'static str)
        ensures
            final(self).selected() == fractal_type,
            final(self).transform() == old(self).transform(),
            final(self).needs_publish() == old(self).needs_publish(),
            r@ == entry_point_spec(fractal_type),
    {
        self.fractal_type = fractal_type;
        FractalView::entry_point_for_fractal_type(fractal_type)
    }

    /// The name of the kernel's entry point for `fractal_type`.
    pub fn entry_point_for_fractal_type(fractal_type: FractalType) -> (r: &'static str)
        ensures
            r@ == entry_point_spec(fractal_type),
    {
        match fractal_type {
            FractalType::Mandelbrot => "mandelbrot",
            FractalType::Newton => "newton",
        }
    }

    /// The frame parameters to publish before the next frame: the packed
    /// transform where it has changed since the last call, and nothing where
    /// it has not.
    pub fn update_transform(&mut self) -> (r: Option<Uniform>)
        ensures
            final(self).transform() == old(self).transform(),
            final(self).selected() == old(self).selected(),
            !final(self).needs_publish(),
            r.is_some() == old(self).needs_publish(),
            r matches Some(block) ==> block@ == packed(old(self).transform()),
    {
        if self.dirty {
            self.dirty = false;
            Some(Uniform::from(self.view_transform.matrix()))
        } else {
            None
        }
    }

    /// Runs the selected kernel once for each pixel of a grid that is `width`
    /// pixels wide and `height` pixels high, at the pixel's centre, and
    /// returns the outputs row by row from the top left.
    pub fn render(&self, width: u32, height: u32) -> (r: Vec<Option<KernelOutput>>)
        requires
            width * height <= usize::MAX,
        ensures
            r@.len() == width * height,
            forall|i: int|
                0 <= i < r@.len() ==> #[trigger] r@[i] == evaluate_spec(
                    self.transform(),
                    self.selected(),
                    pixel_point_spec(i, width as int, height as int),
                ),
    {
        let mut out: Vec<Option<KernelOutput>> = Vec::new();
        let mut row: u32 = 0;
        assert(0 * width == 0) by (nonlinear_arith);
        while row < height
            invariant
                row <= height,
                out@.len() == row * width,
                forall|i: int|
                    0 <= i < out@.len() ==> #[trigger] out@[i] == evaluate_spec(
                        self.transform(),
                        self.selected(),
                        pixel_point_spec(i, width as int, height as int),
                    ),
            decreases height - row,
        {
            let y = pixel_center(row, height);
            let mut col: u32 = 0;
            while col < width
                invariant
                    col <= width,
                    row < height,
                    y@ == pixel_center_spec(row as int, height as int),
                    out@.len() == row * width + col,
                    forall|i: int|
                        0 <= i < out@.len() ==> #[trigger] out@[i] == evaluate_spec(
                            self.transform(),
                            self.selected(),
                            pixel_point_spec(i, width as int, height as int),
                        ),
                decreases width - col,
            {
                let x = pixel_center(col, width);
                let value = self.evaluate(Vector2 { x, y });
                proof {
                    vstd::arithmetic::div_mod::lemma_fundamental_div_mod_converse(
                        out@.len() as int,
                        width as int,
                        row as int,
                        col as int,
                    );
                }
                out.push(value);
                col = col + 1;
            }
            assert(row * width + width == (row + 1) * width) by (nonlinear_arith);
            row = row + 1;
        }
        assert(row * width == width * height) by (nonlinear_arith)
            requires
                row == height,
        ;
        out
    }

    /// What the selected kernel reports for the point of the screen at
    /// `point`, which is in normalized device coordinates, or `None` where
    /// the point of the plane shown there cannot be stored.
    pub fn evaluate(&self, point: Vector2) -> (r: Option<KernelOutput>)
        ensures
            r == evaluate_spec(self.transform(), self.selected(), point@),
    {
        match self.view_transform.map_point(point) {
            Some(c) => Some(run_kernel(self.fractal_type, c)),
            None => None,
        }
    }
}

} // verus!
