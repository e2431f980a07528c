use fractal_core::complex::Complex;
use fractal_core::controls::FractalType;
use fractal_core::fixed::{Fixed, SCALE};
use fractal_core::fractal_view::{FractalView, Uniform};
use fractal_core::kernel::{mandelbrot_iterations, newton_iterate, KernelOutput};
use fractal_core::matrix::{Matrix3, Vector2, Vector3};
use fractal_core::transform::{TransformError, ViewTransform};

fn fx(value: f64) -> Fixed {
    Fixed::from_raw((value * 4294967296.0).round() as i64)
}

fn val(f: Fixed) -> f64 {
    f.raw as f64 / 4294967296.0
}

fn v2(x: f64, y: f64) -> Vector2 {
    Vector2::new(fx(x), fx(y))
}

fn v3(x: f64, y: f64, z: f64) -> Vector3 {
    Vector3::new(fx(x), fx(y), fx(z))
}

fn matrix(rows: [[f64; 3]; 3]) -> Matrix3 {
    Matrix3 {
        x: v3(rows[0][0], rows[1][0], rows[2][0]),
        y: v3(rows[0][1], rows[1][1], rows[2][1]),
        z: v3(rows[0][2], rows[1][2], rows[2][2]),
    }
}

fn sample_transforms() -> Vec<ViewTransform> {
    let skewed = ViewTransform::from_matrix(matrix([
        [1.25, -0.5, 3.0],
        [0.75, 2.0, -1.5],
        [0.0, 0.0, 1.0],
    ]))
    .unwrap();
    let fine = ViewTransform::from_matrix(Matrix3 {
        x: Vector3::new(Fixed::from_raw(12345), Fixed::from_raw(-7), Fixed::zero()),
        y: Vector3::new(Fixed::from_raw(3), Fixed::from_raw(54321), Fixed::zero()),
        z: Vector3::new(fx(-0.7436438870371587), fx(0.1318259042053119), Fixed::one()),
    })
    .unwrap();
    vec![ViewTransform::initial(), skewed, fine]
}

#[test]
fn initial_transform_shows_the_classic_centre() {
    let initial = ViewTransform::initial();
    assert_eq!(
        initial.map_point(v2(0.0, 0.0)),
        Some(Complex::new(fx(-0.25), fx(0.0)))
    );
    assert_eq!(
        initial.matrix(),
        matrix([[2.0, 0.0, -0.25], [0.0, 2.0, 0.0], [0.0, 0.0, 1.0]])
    );
    assert_eq!(
        Some(initial.matrix()),
        Matrix3::from_translation(v2(-0.25, 0.0)).checked_mul(&Matrix3::from_scale(fx(2.0)))
    );
}

#[test]
fn initial_view_spans_four_units() {
    let initial = ViewTransform::initial();
    let left = initial.map_point(v2(-1.0, 0.0)).unwrap();
    let right = initial.map_point(v2(1.0, 0.0)).unwrap();
    assert_eq!(left, Complex::new(fx(-2.25), fx(0.0)));
    assert_eq!(right, Complex::new(fx(1.75), fx(0.0)));
    assert_eq!(val(right.re) - val(left.re), 4.0);
}

#[test]
fn map_point_negates_the_second_coordinate() {
    let initial = ViewTransform::initial();
    // The bottom of the screen, where y is one, has a negative imaginary part.
    assert_eq!(
        initial.map_point(v2(0.5, 1.0)),
        Some(Complex::new(fx(0.75), fx(-2.0)))
    );
    assert_eq!(
        initial.map_point(v2(0.5, -1.0)),
        Some(Complex::new(fx(0.75), fx(2.0)))
    );
    let t = &sample_transforms()[1];
    // 1.25 * 1 - 0.5 * 2 + 3 = 3.25 and 0.75 * 1 + 2 * 2 - 1.5 = 3.25
    assert_eq!(
        t.map_point(v2(1.0, 2.0)),
        Some(Complex::new(fx(3.25), fx(-3.25)))
    );
}

#[test]
fn map_point_refuses_what_cannot_be_stored() {
    let initial = ViewTransform::initial();
    let far = Vector2::new(Fixed::from_raw(i64::MAX), Fixed::zero());
    assert_eq!(initial.map_point(far), None);
    // The image's second coordinate is the smallest number, which has no
    // negation.
    let low = Vector2::new(Fixed::zero(), Fixed::from_raw(i64::MIN / 2));
    assert_eq!(initial.map_point(low), None);
    let high = Vector2::new(Fixed::zero(), Fixed::from_raw(i64::MAX / 2));
    assert_eq!(
        initial.map_point(high),
        Some(Complex::new(fx(-0.25), Fixed::from_raw(-(i64::MAX - 1))))
    );
}

#[test]
fn pan_composes_a_translation_on_the_right() {
    let displacements = [(0.25, 0.0), (-0.125, 0.5), (1.0, -1.0), (0.001, 0.0007)];
    for t in sample_transforms() {
        for (dx, dy) in displacements {
            let d = v2(dx, dy);
            let panned = t.pan(d).unwrap();
            let width = Fixed::from_int(4);
            let offset = Vector2::new(
                width.checked_mul(d.x).unwrap(),
                width.checked_mul(d.y).unwrap(),
            );
            let composed = t
                .matrix()
                .checked_mul(&Matrix3::from_translation(offset))
                .unwrap();
            assert_eq!(panned.matrix(), composed);
            let swapped = Matrix3::from_translation(offset)
                .checked_mul(&t.matrix())
                .unwrap();
            assert_ne!(panned.matrix(), swapped);
        }
    }
}

#[test]
fn pan_of_the_initial_transform_has_exact_entries() {
    let panned = ViewTransform::initial().pan(v2(0.25, -0.5)).unwrap();
    // The offset is (1, -2); the transform doubles it and adds (-0.25, 0).
    assert_eq!(
        panned.matrix(),
        matrix([[2.0, 0.0, 1.75], [0.0, 2.0, -4.0], [0.0, 0.0, 1.0]])
    );
    assert_eq!(
        panned.map_point(v2(0.0, 0.0)),
        Some(Complex::new(fx(1.75), fx(4.0)))
    );
}

#[test]
fn pans_accumulate() {
    let once = ViewTransform::initial().pan(v2(0.5, 0.25)).unwrap();
    let twice = once.pan(v2(-0.25, 0.25)).unwrap();
    let direct = ViewTransform::initial().pan(v2(0.25, 0.5)).unwrap();
    assert_eq!(twice, direct);
}

#[test]
fn pan_refuses_what_cannot_be_stored() {
    let initial = ViewTransform::initial();
    // Four times the displacement cannot be stored.
    let wide = Vector2::new(Fixed::from_raw(i64::MAX / 4 + 1), Fixed::zero());
    assert_eq!(initial.pan(wide), None);
    // It can, but twice that cannot.
    let far = Vector2::new(Fixed::from_raw(i64::MAX / 4), Fixed::zero());
    assert_eq!(initial.pan(far), None);
    let near = Vector2::new(Fixed::from_raw(i64::MAX / 8), Fixed::zero());
    assert!(initial.pan(near).is_some());
}

#[test]
fn zoom_composes_translation_scaling_and_translation_on_the_right() {
    let cases = [
        (2.0, (0.25, 0.0)),
        (0.5, (-0.5, 0.5)),
        (1.1, (0.3, -0.2)),
        (0.975, (0.0, 0.0)),
        (-1.5, (0.125, 0.375)),
    ];
    for t in sample_transforms() {
        for (factor, (ax, ay)) in cases {
            let anchor = v2(ax, ay);
            let zoomed = t.zoom(fx(factor), anchor).unwrap();
            let half_width = Fixed::from_int(2);
            let to = Vector2::new(
                half_width.checked_mul(anchor.x).unwrap(),
                half_width.checked_mul(anchor.y).unwrap(),
            );
            let back = Vector2::new(
                Fixed::from_int(-2).checked_mul(anchor.x).unwrap(),
                Fixed::from_int(-2).checked_mul(anchor.y).unwrap(),
            );
            let composed = t
                .matrix()
                .checked_mul(&Matrix3::from_translation(to))
                .unwrap()
                .checked_mul(&Matrix3::from_scale(fx(factor)))
                .unwrap()
                .checked_mul(&Matrix3::from_translation(back))
                .unwrap();
            assert_eq!(zoomed.matrix(), composed);
        }
    }
}

#[test]
fn zoom_of_the_initial_transform_has_exact_entries() {
    let zoomed = ViewTransform::initial().zoom(fx(2.0), v2(0.25, 0.0)).unwrap();
    // The anchor is shown at 2 * 0.5 - 0.25 = 0.75 before and after.
    assert_eq!(
        zoomed.matrix(),
        matrix([[4.0, 0.0, -1.25], [0.0, 4.0, 0.0], [0.0, 0.0, 1.0]])
    );
    let about_centre = ViewTransform::initial().zoom(fx(0.5), v2(0.0, 0.0)).unwrap();
    assert_eq!(
        about_centre.matrix(),
        matrix([[1.0, 0.0, -0.25], [0.0, 1.0, 0.0], [0.0, 0.0, 1.0]])
    );
}

#[test]
fn zoom_leaves_the_anchor_where_it_was() {
    let factors = [2.0, 0.5, 1.1, 0.975, 1.0 + 3.0 / 40.0, 0.001, 1000.0, -1.0];
    let anchors = [
        (0.0, 0.0),
        (0.25, 0.0),
        (-0.5, 0.5),
        (0.5, -0.5),
        (0.123456789, -0.387654321),
    ];
    for t in sample_transforms() {
        for factor in factors {
            for (ax, ay) in anchors {
                let anchor = v2(ax, ay);
                let at = Vector2::new(
                    Fixed::from_raw(2 * anchor.x.raw),
                    Fixed::from_raw(2 * anchor.y.raw),
                );
                let zoomed = match t.zoom(fx(factor), anchor) {
                    Ok(zoomed) => zoomed,
                    Err(error) => {
                        assert_eq!(error, TransformError::Degenerate);
                        continue;
                    }
                };
                assert_eq!(zoomed.map_point(at), t.map_point(at));
            }
        }
    }
}

#[test]
fn zoom_moves_the_point_with_the_anchors_own_coordinates() {
    let t = ViewTransform::initial();
    let anchor = v2(0.5, 0.0);
    let zoomed = t.zoom(fx(2.0), anchor).unwrap();
    // The anchor stands for the screen point (1, 0), which stays at 1.75.
    assert_eq!(zoomed.map_point(v2(1.0, 0.0)), t.map_point(v2(1.0, 0.0)));
    assert_eq!(
        zoomed.map_point(v2(1.0, 0.0)),
        Some(Complex::new(fx(1.75), fx(0.0)))
    );
    // The screen point (0.5, 0) does not stay.
    assert_eq!(t.map_point(anchor), Some(Complex::new(fx(0.75), fx(0.0))));
    assert_eq!(
        zoomed.map_point(anchor),
        Some(Complex::new(fx(-0.25), fx(0.0)))
    );
}

#[test]
fn zoom_by_one_changes_nothing() {
    for t in sample_transforms() {
        for (ax, ay) in [(0.0, 0.0), (0.3, -0.2), (-0.5, 0.5)] {
            let anchor = v2(ax, ay);
            let zoomed = t.zoom(fx(1.0), anchor).unwrap();
            assert_eq!(zoomed, t);
            assert_eq!(zoomed.map_point(anchor), t.map_point(anchor));
        }
    }
}

#[test]
fn zoom_about_the_centre_leaves_the_centre() {
    for t in sample_transforms() {
        for factor in [2.0, 0.5, 1.3, -3.0] {
            let centre = v2(0.0, 0.0);
            let zoomed = t.zoom(fx(factor), centre).unwrap();
            assert_eq!(zoomed.map_point(centre), t.map_point(centre));
        }
    }
}

#[test]
fn a_factor_above_one_shows_more_of_the_plane() {
    let t = ViewTransform::initial();
    let out = t.zoom(fx(2.0), v2(0.0, 0.0)).unwrap();
    let left = out.map_point(v2(-1.0, 0.0)).unwrap();
    let right = out.map_point(v2(1.0, 0.0)).unwrap();
    assert_eq!(val(right.re) - val(left.re), 8.0);
    let closer = t.zoom(fx(0.5), v2(0.0, 0.0)).unwrap();
    let left = closer.map_point(v2(-1.0, 0.0)).unwrap();
    let right = closer.map_point(v2(1.0, 0.0)).unwrap();
    assert_eq!(val(right.re) - val(left.re), 2.0);
}

#[test]
fn zoom_refuses_a_degenerate_result() {
    let t = ViewTransform::initial();
    assert_eq!(
        t.zoom(fx(0.0), v2(0.25, 0.25)),
        Err(TransformError::Degenerate)
    );
    // Two raw units of scale times one raw unit of factor round to zero.
    let fine = ViewTransform::from_matrix(Matrix3::from_scale(Fixed::from_raw(2))).unwrap();
    assert_eq!(
        fine.zoom(Fixed::from_raw(1), v2(0.0, 0.0)),
        Err(TransformError::Degenerate)
    );
    assert!(fine.zoom(fx(0.5), v2(0.0, 0.0)).is_ok());
}

#[test]
fn zoom_refuses_what_cannot_be_stored() {
    let t = ViewTransform::initial();
    // Twice the anchor cannot be stored.
    let wide = Vector2::new(Fixed::from_raw(i64::MAX / 2 + 1), Fixed::zero());
    assert_eq!(t.zoom(fx(2.0), wide), Err(TransformError::Overflow));
    // Twice the anchor can be stored but not negated.
    let low = Vector2::new(Fixed::zero(), Fixed::from_raw(i64::MIN / 2));
    assert_eq!(t.zoom(fx(2.0), low), Err(TransformError::Overflow));
    // The scale cannot be stored.
    let huge = Fixed::from_raw(i64::MAX);
    assert_eq!(t.zoom(huge, v2(0.0, 0.0)), Err(TransformError::Overflow));
    // The offset cannot be stored.
    let far = Vector2::new(Fixed::from_int(1 << 29), Fixed::zero());
    assert_eq!(t.zoom(fx(3.0), far), Err(TransformError::Overflow));
    // An overflow is reported before a degenerate result.
    assert_eq!(t.zoom(fx(0.0), wide), Err(TransformError::Overflow));
}

#[test]
fn transforms_are_affine_and_invertible() {
    let singular = matrix([[1.0, 2.0, 0.0], [2.0, 4.0, 0.0], [0.0, 0.0, 1.0]]);
    assert!(singular.is_affine());
    assert!(!singular.is_invertible());
    assert_eq!(ViewTransform::from_matrix(singular), None);
    let projective = matrix([[1.0, 0.0, 0.0], [0.0, 1.0, 0.0], [0.5, 0.0, 1.0]]);
    assert!(!projective.is_affine());
    assert!(projective.is_invertible());
    assert_eq!(ViewTransform::from_matrix(projective), None);
    let unscaled = matrix([[1.0, 0.0, 0.0], [0.0, 1.0, 0.0], [0.0, 0.0, 2.0]]);
    assert_eq!(ViewTransform::from_matrix(unscaled), None);
    assert!(ViewTransform::from_matrix(Matrix3::identity()).is_some());
    let mut t = ViewTransform::initial();
    for step in 0..40 {
        t = t.pan(v2(0.01 * step as f64, -0.02)).unwrap();
        t = t.zoom(fx(0.9), v2(0.1, -0.3)).unwrap();
        assert!(t.matrix().is_affine());
        assert!(t.matrix().is_invertible());
    }
}

#[test]
fn matrices_multiply_transpose_and_give_rows() {
    let a = matrix([[1.0, 2.0, 3.0], [4.0, 5.0, 6.0], [7.0, 8.0, 9.0]]);
    let b = matrix([[0.5, 0.0, -1.0], [0.0, 2.0, 0.0], [1.0, 1.0, 1.0]]);
    assert_eq!(
        a.checked_mul(&b),
        Some(matrix([
            [3.5, 7.0, 2.0],
            [8.0, 16.0, 2.0],
            [12.5, 25.0, 2.0]
        ]))
    );
    assert_eq!(a.checked_mul(&Matrix3::identity()), Some(a));
    assert_eq!(Matrix3::identity().checked_mul(&a), Some(a));
    assert_eq!(
        a.transpose(),
        matrix([[1.0, 4.0, 7.0], [2.0, 5.0, 8.0], [3.0, 6.0, 9.0]])
    );
    assert_eq!(a.row(0), v3(1.0, 2.0, 3.0));
    assert_eq!(a.row(1), v3(4.0, 5.0, 6.0));
    assert_eq!(a.row(2), v3(7.0, 8.0, 9.0));
    assert_eq!(a.transform(v3(1.0, 0.0, -1.0)), Some(v3(-2.0, -2.0, -2.0)));
    let big = Matrix3::from_scale(Fixed::from_int(65536));
    assert_eq!(big.checked_mul(&Matrix3::from_scale(Fixed::from_int(32768))), None);
    assert_eq!(big.transform(Vector3::new(Fixed::from_int(32768), Fixed::zero(), Fixed::zero())), None);
}

#[test]
fn translation_and_scaling_matrices() {
    assert_eq!(
        Matrix3::from_translation(v2(3.0, -4.0)),
        matrix([[1.0, 0.0, 3.0], [0.0, 1.0, -4.0], [0.0, 0.0, 1.0]])
    );
    assert_eq!(
        Matrix3::from_scale(fx(2.5)),
        matrix([[2.5, 0.0, 0.0], [0.0, 2.5, 0.0], [0.0, 0.0, 1.0]])
    );
    assert_eq!(Matrix3::identity(), Matrix3::from_scale(Fixed::one()));
}

#[test]
fn packed_rows_reproduce_the_transform() {
    let block = Uniform::from(ViewTransform::initial().matrix());
    assert_eq!(block.transform_1, [fx(2.0), fx(0.0), fx(-0.25)]);
    assert_eq!(block.transform_2, [fx(0.0), fx(2.0), fx(0.0)]);
    assert_eq!(block.transform_3, [fx(0.0), fx(0.0), fx(1.0)]);
    assert_eq!(block._padding_1, Fixed::zero());
    assert_eq!(block._padding_2, Fixed::zero());
    assert_eq!(block._padding_3, Fixed::zero());
    // The rows applied to (1, 2, 1).
    let input = [1.0, 2.0, 1.0];
    let apply = |row: [Fixed; 3]| -> f64 {
        row.iter().zip(input).map(|(entry, v)| val(*entry) * v).sum()
    };
    assert_eq!(
        [
            apply(block.transform_1),
            apply(block.transform_2),
            apply(block.transform_3)
        ],
        [1.75, 4.0, 1.0]
    );
}

#[test]
fn packing_is_by_rows_and_not_by_columns() {
    let m = matrix([[1.0, 2.0, 3.0], [4.0, 5.0, 6.0], [7.0, 8.0, 9.0]]);
    let block = Uniform::from(m);
    assert_eq!(block.transform_1, [fx(1.0), fx(2.0), fx(3.0)]);
    assert_eq!(block.transform_2, [fx(4.0), fx(5.0), fx(6.0)]);
    assert_eq!(block.transform_3, [fx(7.0), fx(8.0), fx(9.0)]);
}

#[test]
fn view_starts_with_the_initial_transform_to_publish() {
    let mut view = FractalView::new();
    assert_eq!(view.get_view_transform(), ViewTransform::initial());
    assert_eq!(view.fractal_type(), FractalType::Mandelbrot);
    let block = view.update_transform();
    assert_eq!(block, Some(Uniform::from(ViewTransform::initial().matrix())));
    assert_eq!(view.update_transform(), None);
}

#[test]
fn view_publishes_after_each_change_only() {
    let mut view = FractalView::new();
    assert!(view.update_transform().is_some());
    assert_eq!(view.translate(v2(0.25, -0.5)), Ok(()));
    let panned = ViewTransform::initial().pan(v2(0.25, -0.5)).unwrap();
    assert_eq!(view.get_view_transform(), panned);
    assert_eq!(view.update_transform(), Some(Uniform::from(panned.matrix())));
    assert_eq!(view.update_transform(), None);
    assert_eq!(view.zoom(fx(2.0), v2(0.25, 0.0)), Ok(()));
    let zoomed = panned.zoom(fx(2.0), v2(0.25, 0.0)).unwrap();
    assert_eq!(view.get_view_transform(), zoomed);
    assert_eq!(view.set_fractal_type(FractalType::Newton), "newton");
    assert_eq!(view.update_transform(), Some(Uniform::from(zoomed.matrix())));
    assert_eq!(view.set_fractal_type(FractalType::Mandelbrot), "mandelbrot");
    assert_eq!(view.update_transform(), None);
    assert_eq!(view.get_view_transform(), zoomed);
}

#[test]
fn view_stays_as_it_is_when_a_change_is_refused() {
    let mut view = FractalView::new();
    assert!(view.update_transform().is_some());
    let wide = Vector2::new(Fixed::from_raw(i64::MAX), Fixed::zero());
    assert_eq!(view.translate(wide), Err(TransformError::Overflow));
    assert_eq!(view.zoom(fx(2.0), wide), Err(TransformError::Overflow));
    assert_eq!(
        view.zoom(fx(0.0), v2(0.0, 0.0)),
        Err(TransformError::Degenerate)
    );
    assert_eq!(view.get_view_transform(), ViewTransform::initial());
    assert_eq!(view.update_transform(), None);
}

#[test]
fn entry_points_are_named_after_the_kernels() {
    assert_eq!(
        FractalView::entry_point_for_fractal_type(FractalType::Mandelbrot),
        "mandelbrot"
    );
    assert_eq!(
        FractalView::entry_point_for_fractal_type(FractalType::Newton),
        "newton"
    );
    let mut view = FractalView::new();
    assert_eq!(view.set_fractal_type(FractalType::Newton), "newton");
    assert_eq!(view.fractal_type(), FractalType::Newton);
}

#[test]
fn view_runs_the_selected_kernel_on_the_mapped_point() {
    let mut view = FractalView::new();
    // The centre of the screen shows -0.25, which is in the set.
    assert_eq!(
        view.evaluate(v2(0.0, 0.0)),
        Some(KernelOutput::EscapeCount(Fixed::zero()))
    );
    let corner = view.get_view_transform().map_point(v2(1.0, 1.0)).unwrap();
    assert_eq!(corner, Complex::new(fx(1.75), fx(-2.0)));
    assert_eq!(
        view.evaluate(v2(1.0, 1.0)),
        Some(KernelOutput::EscapeCount(mandelbrot_iterations(corner)))
    );
    assert_eq!(
        view.evaluate(v2(1.0, 1.0)),
        Some(KernelOutput::EscapeCount(fx(1.0)))
    );
    view.set_fractal_type(FractalType::Newton);
    assert_eq!(
        view.evaluate(v2(1.0, 1.0)),
        Some(KernelOutput::Root(newton_iterate(corner)))
    );
    let far = Vector2::new(Fixed::from_raw(i64::MAX), Fixed::zero());
    assert_eq!(view.evaluate(far), None);
    assert_eq!(SCALE, 1 << 32);
}

#[test]
fn render_runs_the_kernel_at_each_pixel_centre() {
    let mut view = FractalView::new();
    let grid = view.render(4, 2);
    assert_eq!(grid.len(), 8);
    let xs = [-0.75, -0.25, 0.25, 0.75];
    let ys = [-0.5, 0.5];
    for row in 0..2 {
        for col in 0..4 {
            assert_eq!(grid[row * 4 + col], view.evaluate(v2(xs[col], ys[row])));
        }
    }
    // The top left pixel shows -1.75 + i, which has escaped; the second
    // shows -0.75 + i, whose next iterate has; the third in the lower row
    // shows 0.25 - i.
    assert_eq!(grid[0], Some(KernelOutput::EscapeCount(fx(1.0))));
    assert_eq!(
        grid[1],
        Some(KernelOutput::EscapeCount(mandelbrot_iterations(
            Complex::new(fx(-0.75), fx(1.0))
        )))
    );
    assert_eq!(
        grid[6],
        Some(KernelOutput::EscapeCount(mandelbrot_iterations(
            Complex::new(fx(0.25), fx(-1.0))
        )))
    );
    view.set_fractal_type(FractalType::Newton);
    let roots = view.render(4, 2);
    assert_eq!(
        roots[5],
        Some(KernelOutput::Root(newton_iterate(Complex::new(
            fx(-0.75),
            fx(-1.0)
        ))))
    );
    assert_ne!(roots, grid);
}

#[test]
fn render_of_an_odd_grid_rounds_the_centres_toward_the_left() {
    let view = FractalView::new();
    let grid = view.render(3, 1);
    assert_eq!(grid.len(), 3);
    // A third, one and five thirds, each less one.
    let centres = [1431655765 - SCALE, 0, 7158278826 - SCALE];
    for col in 0..3 {
        let point = Vector2::new(Fixed::from_raw(centres[col]), Fixed::zero());
        assert_eq!(grid[col], view.evaluate(point));
    }
}

#[test]
fn render_of_an_empty_grid_is_empty() {
    let view = FractalView::new();
    assert!(view.render(0, 5).is_empty());
    assert!(view.render(5, 0).is_empty());
    assert_eq!(view.render(1, 1), vec![view.evaluate(v2(0.0, 0.0))]);
}
