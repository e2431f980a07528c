//! From the canvas's messages to changes of the view: a drag in pixels
//! becomes a displacement in units of the screen, a turn of the wheel becomes
//! a zoom factor and an anchor, and a selection becomes a kernel.

use vstd::prelude::*;
use crate::controls::CanvasMessage;
use crate::controls::FractalType;
use crate::controls::Message;
use crate::controls::Point;
use crate::fixed::fits;
use crate::fixed::narrow;
use crate::fixed::scale;
use crate::fixed::trunc_div;
use crate::fixed::Fixed;
use crate::fixed::SCALE;
use crate::fractal_view::entry_point_spec;
use crate::fractal_view::FractalView;
use crate::matrix::Matrix3Spec;
use crate::matrix::Vector2;
use crate::matrix::Vector2Spec;
use crate::transform::checked_pan;
use crate::transform::checked_zoom;

verus! {

/// The turn of the wheel that doubles what the screen shows.
pub const ZOOM_SCROLL_FACTOR: u32 = 40;

/// A drag of `dx` by `dy` pixels on a screen of `width` by `height` pixels,
/// in units of the screen's width and height. Nothing where the screen has
/// no extent.
pub open spec fn pan_displacement_spec(dx: int, dy: int, width: int, height: int) -> Option<
    Vector2Spec,
> {
    if width == 0 || height == 0 {
        None
    } else {
        Some(Vector2Spec { x: trunc_div(dx, width), y: trunc_div(dy, height) })
    }
}

/// The factor of a zoom for a turn of the wheel by `scroll`: one plus the
/// fortieth part of the turn. Nothing where it cannot be stored.
pub open spec fn zoom_factor_spec(scroll: int) -> Option<int> {
    if fits(trunc_div(scroll, ZOOM_SCROLL_FACTOR as int) + scale()) {
        Some(trunc_div(scroll, ZOOM_SCROLL_FACTOR as int) + scale())
    } else {
        None
    }
}

/// The anchor of a zoom at `on_point` on a screen of `width` by `height`
/// pixels: the position in units of the screen's width and height, counted
/// from the centre, rightward and upward. Nothing where the screen has no
/// extent or a coordinate cannot be stored.
pub open spec fn zoom_anchor_spec(on_point: Point, width: int, height: int) -> Option<
    Vector2Spec,
> {
    if width == 0 || height == 0 || !fits(trunc_div(on_point.x@, width) - scale() / 2) || !fits(
        -trunc_div(on_point.y@, height) + scale() / 2,
    ) {
        None
    } else {
        Some(
            Vector2Spec {
                x: trunc_div(on_point.x@, width) - scale() / 2,
                y: -trunc_div(on_point.y@, height) + scale() / 2,
            },
        )
    }
}

/// The mathematical value of an optional stored vector.
pub open spec fn vector2_view_of(r: Option<Vector2>) -> Option<Vector2Spec> {
    match r {
        Some(v) => Some(v@),
        None => None,
    }
}

/// The mathematical value of an optional stored number.
pub open spec fn fixed_view_of(r: Option<Fixed>) -> Option<int> {
    match r {
        Some(v) => Some(v@),
        None => None,
    }
}

/// A drag in pixels as a displacement in units of the screen.
pub fn pan_displacement(dx: Fixed, dy: Fixed, width: u32, height: u32) -> (r: Option<Vector2>)
    ensures
        vector2_view_of(r) == pan_displacement_spec(dx@, dy@, width as int, height as int),
{
    match (dx.div_int(width), dy.div_int(height)) {
        (Some(x), Some(y)) => Some(Vector2 { x, y }),
        _ => None,
    }
}

/// The factor of a zoom for a turn of the wheel by `scroll`.
pub fn zoom_factor(scroll: Fixed) -> (r: Option<Fixed>)
    ensures
        fixed_view_of(r) == zoom_factor_spec(scroll@),
{
    match scroll.div_int(ZOOM_SCROLL_FACTOR) {
        Some(share) => share.checked_add(Fixed { raw: SCALE }),
        None => None,
    }
}

/// The anchor of a zoom at a position on the screen.
pub fn zoom_anchor(on_point: Point, width: u32, height: u32) -> (r: Option<Vector2>)
    ensures
        vector2_view_of(r) == zoom_anchor_spec(on_point, width as int, height as int),
{
    let half = Fixed { raw: SCALE / 2 };
    match (on_point.x.div_int(width), on_point.y.div_int(height)) {
        (Some(across), Some(down)) => {
            let x = across.checked_sub(half);
            let y = narrow(-(down.raw as i128) + (half.raw as i128));
            match (x, y) {
                (Some(x), Some(y)) => Some(Vector2 { x, y }),
                _ => None,
            }
        },
        _ => None,
    }
}

/// The transform after a message was applied on a screen of `width` by
/// `height` pixels. A drag pans and a turn of the wheel zooms; where the
/// gesture cannot be normalized or the change cannot be made, and for every
/// other message, the transform stays as it is.
pub open spec fn transform_after(
    t: Matrix3Spec,
    message: Option<Message>,
    width: int,
    height: int,
) -> Matrix3Spec {
    match message {
        Some(Message::Canvas(CanvasMessage::Pan(dx, dy))) => match pan_displacement_spec(
            dx@,
            dy@,
            width,
            height,
        ) {
            Some(displacement) => match checked_pan(t, displacement) {
                Some(panned) => panned,
                None => t,
            },
            None => t,
        },
        Some(Message::Canvas(CanvasMessage::Zoom(scroll, on_point))) => match (
            zoom_factor_spec(scroll@),
            zoom_anchor_spec(on_point, width, height),
        ) {
            (Some(factor), Some(anchor)) => match checked_zoom(t, factor, anchor) {
                Ok(zoomed) => zoomed,
                Err(_) => t,
            },
            _ => t,
        },
        _ => t,
    }
}

/// Whether a message makes a pan or a zoom that can be carried out, be it one
/// that leaves every entry of the transform as it was.
pub open spec fn change_made(t: Matrix3Spec, message: Option<Message>, width: int, height: int) -> bool {
    match message {
        Some(Message::Canvas(CanvasMessage::Pan(dx, dy))) => match pan_displacement_spec(
            dx@,
            dy@,
            width,
            height,
        ) {
            Some(displacement) => checked_pan(t, displacement).is_some(),
            None => false,
        },
        Some(Message::Canvas(CanvasMessage::Zoom(scroll, on_point))) => match (
            zoom_factor_spec(scroll@),
            zoom_anchor_spec(on_point, width, height),
        ) {
            (Some(factor), Some(anchor)) => checked_zoom(t, factor, anchor).is_ok(),
            _ => false,
        },
        _ => false,
    }
}

/// The fractal that is shown after a message was applied.
pub open spec fn selected_after(selected: FractalType, message: Option<Message>) -> FractalType {
    match message {
        Some(Message::FractalTypeSelected(fractal_type)) => fractal_type,
        _ => selected,
    }
}

/// What the application has to do after a message was applied to the view.
#[derive(Clone, Copy, Debug, PartialEq, Eq)]
pub enum Reaction {
    /// Nothing more.
    Nothing,
    /// Hand this message, which carries the view's transform, to the
    /// controls.
    Queue(Message),
    /// Build the pipeline again with the kernel of this entry point.
    Rebuild(&'static str),
}

/// Applies the message that the controls handled last to the view, on a
/// screen of `width` by `height` pixels, and says what is left to do: after a
/// drag or a turn of the wheel the controls are told the view's transform,
/// changed or not; after a selection the pipeline is built again.
pub fn apply_message(view: &mut FractalView, message: Option<Message>, width: u32, height: u32) -> (r:
    Reaction)
    ensures
        final(view).transform() == transform_after(
            old(view).transform(),
            message,
            width as int,
            height as int,
        ),
        final(view).selected() == selected_after(old(view).selected(), message),
        final(view).needs_publish() == (old(view).needs_publish() || change_made(
            old(view).transform(),
            message,
            width as int,
            height as int,
        )),
        match message {
            Some(Message::Canvas(CanvasMessage::Pan(_, _))) | Some(
                Message::Canvas(CanvasMessage::Zoom(_, _)),
            ) => r matches Reaction::Queue(Message::Canvas(CanvasMessage::UpdateViewTransform(t)))
                && t@ == final(view).transform(),
            Some(Message::FractalTypeSelected(fractal_type)) => r matches Reaction::Rebuild(name)
                && name@ == entry_point_spec(fractal_type),
            _ => r == Reaction::Nothing,
        },
{
    match message {
        Some(Message::Canvas(CanvasMessage::Pan(dx, dy))) => {
            match pan_displacement(dx, dy, width, height) {
                Some(displacement) => {
                    let _ = view.translate(displacement);
                },
                None => {},
            }
            Reaction::Queue(
                Message::Canvas(CanvasMessage::UpdateViewTransform(view.get_view_transform())),
            )
        },
        Some(Message::Canvas(CanvasMessage::Zoom(scroll, on_point))) => {
            match (zoom_factor(scroll), zoom_anchor(on_point, width, height)) {
                (Some(factor), Some(anchor)) => {
                    let _ = view.zoom(factor, anchor);
                },
                _ => {},
            }
            Reaction::Queue(
                Message::Canvas(CanvasMessage::UpdateViewTransform(view.get_view_transform())),
            )
        },
        Some(Message::FractalTypeSelected(fractal_type)) => Reaction::Rebuild(
            view.set_fractal_type(fractal_type),
        ),
        _ => Reaction::Nothing,
    }
}

} // verus!
