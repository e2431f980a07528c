//! The user-facing state: which fractal is shown, the gestures of the canvas
//! and the messages they turn into.

use vstd::prelude::*;
use crate::complex::storable;
use crate::complex::view_of;
use crate::complex::Complex;
use crate::complex::ComplexSpec;
use crate::fixed::clamp_raw;
use crate::fixed::div_raw;
use crate::fixed::fits;
use crate::fixed::narrow;
use crate::fixed::scale;
use crate::fixed::trunc_div;
use crate::fixed::Fixed;
use crate::fixed::SCALE;
use crate::matrix::Matrix3Spec;
use crate::matrix::Vector2;
use crate::matrix::Vector2Spec;
use crate::transform::initial_spec;
use crate::transform::map_point_spec;
use crate::transform::ViewTransform;

verus! {

/// The fractals that can be shown.
#[derive(Clone, Copy, Debug, PartialEq, Eq, Structural)]
pub enum FractalType {
    Mandelbrot,
    Newton,
}

/// The name of each fractal as it is shown to the user.
pub open spec fn label_spec(fractal_type: FractalType) -> Seq<char> {
    match fractal_type {
        FractalType::Mandelbrot => "Mandelbrot"@,
        FractalType::Newton => "Newton"@,
    }
}

/// The fractals in the order in which they are offered.
pub open spec fn all_spec() -> Seq<FractalType> {
    seq![FractalType::Mandelbrot, FractalType::Newton]
}

impl FractalType {
    /// The fractals in the order in which they are offered.
    pub fn all() -> (r: [FractalType; 2])
        ensures
            r@ == all_spec(),
    {
        let r: [FractalType; 2] = [FractalType::Mandelbrot, FractalType::Newton];
        assert(r@ =~= all_spec());
        r
    }

    /// The name of the fractal as it is shown to the user.
    pub fn label(&self) -> (r: &'static str)
        ensures
            r@ == label_spec(*self),
    {
        match self {
            FractalType::Mandelbrot => "Mandelbrot",
            FractalType::Newton => "Newton",
        }
    }
}

/// A position on the screen, in pixels.
#[derive(Clone, Copy, Debug, PartialEq, Eq, Structural)]
pub struct Point {
    pub x: Fixed,
    pub y: Fixed,
}

/// A rectangle on the screen, in pixels, by its top left corner and its size.
#[derive(Clone, Copy, Debug, PartialEq, Eq, Structural)]
pub struct Rectangle {
    pub x: Fixed,
    pub y: Fixed,
    pub width: Fixed,
    pub height: Fixed,
}

/// The corner's coordinate plus half the extent, clamped to what can be
/// stored.
pub open spec fn middle(corner: Fixed, extent: Fixed) -> Fixed {
    Fixed { raw: clamp_raw(corner@ + trunc_div(extent@, 2)) as i64 }
}

/// The centre of a rectangle.
pub open spec fn center_spec(bounds: Rectangle) -> Point {
    Point { x: middle(bounds.x, bounds.width), y: middle(bounds.y, bounds.height) }
}

/// The difference of two coordinates, clamped to what can be stored.
pub open spec fn clamped_difference(a: Fixed, b: Fixed) -> Fixed {
    Fixed { raw: clamp_raw(a@ - b@) as i64 }
}

impl Rectangle {
    /// The centre of the rectangle, each coordinate clamped to what can be
    /// stored.
    pub fn center(&self) -> (r: Point)
        ensures
            r == center_spec(*self),
    {
        Point { x: halfway(self.x, self.width), y: halfway(self.y, self.height) }
    }
}

/// The corner's coordinate plus half the extent, clamped.
fn halfway(corner: Fixed, extent: Fixed) -> (r: Fixed)
    ensures
        r == middle(corner, extent),
{
    let half: i64 = extent.raw / 2;
    corner.saturating_add(Fixed { raw: half })
}

/// The buttons of a mouse.
#[derive(Clone, Copy, Debug, PartialEq, Eq, Structural)]
pub enum Button {
    Left,
    Right,
    Middle,
    Other,
}

/// How far a wheel was turned, in lines or in pixels.
#[derive(Clone, Copy, Debug, PartialEq, Eq, Structural)]
pub enum ScrollDelta {
    Lines { x: Fixed, y: Fixed },
    Pixels { x: Fixed, y: Fixed },
}

/// What a mouse can do on the canvas.
#[derive(Clone, Copy, Debug, PartialEq, Eq, Structural)]
pub enum MouseEvent {
    CursorEntered,
    CursorLeft,
    CursorMoved { position: Point },
    ButtonPressed(Button),
    ButtonReleased(Button),
    WheelScrolled { delta: ScrollDelta },
}

/// What can happen on the canvas.
#[derive(Clone, Copy, Debug, PartialEq, Eq, Structural)]
pub enum Event {
    Mouse(MouseEvent),
    Touch,
    Keyboard,
}

/// Whether the canvas has used an event.
#[derive(Clone, Copy, Debug, PartialEq, Eq, Structural)]
pub enum Status {
    Ignored,
    Captured,
}

/// What the canvas is in the middle of.
#[derive(Clone, Copy, Debug, PartialEq, Eq, Structural)]
pub enum Mode {
    /// No gesture is under way.
    Idle,
    /// The left button is down, and the cursor was last seen at
    /// `start_position`.
    Panning { start_position: Point },
}

/// The canvas's memory between events.
#[derive(Clone, Copy, Debug, PartialEq, Eq, Structural)]
pub struct State {
    pub mode: Mode,
}

impl State {
    /// The state before any event: no gesture is under way.
    pub fn new() -> (r: State)
        ensures
            r.mode == Mode::Idle,
    {
        State { mode: Mode::Idle }
    }
}

/// What the canvas tells the application.
#[derive(Clone, Copy, Debug, PartialEq, Eq)]
pub enum CanvasMessage {
    /// The cursor was dragged by this many pixels, leftward and downward.
    Pan(Fixed, Fixed),
    /// The wheel was turned by this much with the cursor at this position.
    Zoom(Fixed, Point),
    /// The transform that the canvas reads coordinates with has changed.
    UpdateViewTransform(ViewTransform),
}

/// What the controls are told.
#[derive(Clone, Copy, Debug, PartialEq, Eq)]
pub enum Message {
    Canvas(CanvasMessage),
    FractalTypeSelected(FractalType),
}

/// How far the wheel was turned along the vertical axis.
pub open spec fn vertical(delta: ScrollDelta) -> Fixed {
    match delta {
        ScrollDelta::Lines { x, y } => y,
        ScrollDelta::Pixels { x, y } => y,
    }
}

/// The position that a zoom is anchored at: the cursor's, or the centre of
/// the canvas where there is no cursor.
pub open spec fn on_point_spec(bounds: Rectangle, cursor: Option<Point>) -> Point {
    match cursor {
        Some(position) => position,
        None => center_spec(bounds),
    }
}

/// The canvas's reaction to an event: the mode after it, whether the event
/// was used, and the message that it gives rise to.
///
/// Pressing the left button over the canvas starts a pan, every movement of
/// the cursor during a pan reports the distance from the last position, and
/// releasing the left button ends the pan. Turning the wheel asks for a zoom
/// at the cursor. Nothing else is used.
pub open spec fn canvas_update_spec(
    mode: Mode,
    event: Event,
    bounds: Rectangle,
    cursor: Option<Point>,
) -> (Mode, Status, Option<CanvasMessage>) {
    match event {
        Event::Mouse(MouseEvent::CursorMoved { position }) => match mode {
            Mode::Idle => (Mode::Idle, Status::Ignored, None),
            Mode::Panning { start_position } => (
                Mode::Panning { start_position: position },
                Status::Captured,
                Some(
                    CanvasMessage::Pan(
                        clamped_difference(start_position.x, position.x),
                        clamped_difference(position.y, start_position.y),
                    ),
                ),
            ),
        },
        Event::Mouse(MouseEvent::ButtonPressed(Button::Left)) => match cursor {
            Some(position) => (Mode::Panning { start_position: position }, Status::Captured, None),
            None => (mode, Status::Ignored, None),
        },
        Event::Mouse(MouseEvent::ButtonReleased(Button::Left)) => (
            Mode::Idle,
            Status::Captured,
            None,
        ),
        Event::Mouse(MouseEvent::WheelScrolled { delta }) => (
            mode,
            Status::Captured,
            Some(CanvasMessage::Zoom(vertical(delta), on_point_spec(bounds, cursor))),
        ),
        _ => (mode, Status::Ignored, None),
    }
}

/// One normalized device coordinate of a position: the position divided by
/// the extent of the canvas, times two, less one. Nothing where the extent is
/// zero or a step cannot be stored.
pub open spec fn device_coordinate(position: int, extent: int) -> Option<int> {
    if extent == 0 || !fits(div_raw(position, extent)) || !fits(
        2 * div_raw(position, extent) - scale(),
    ) {
        None
    } else {
        Some(2 * div_raw(position, extent) - scale())
    }
}

/// The point of the complex plane under the cursor, as the canvas shows it:
/// the image of the cursor's normalized device coordinates. Nothing where
/// there is no cursor, the canvas has no extent or a step cannot be stored.
pub open spec fn readout_spec(t: Matrix3Spec, bounds: Rectangle, cursor: Option<Point>) -> Option<
    ComplexSpec,
> {
    match cursor {
        Some(position) => match (
            device_coordinate(position.x@, bounds.width@),
            device_coordinate(position.y@, bounds.height@),
        ) {
            (Some(x), Some(y)) => storable(map_point_spec(t, Vector2Spec { x, y })),
            _ => None,
        },
        None => None,
    }
}

/// One normalized device coordinate of a position.
fn to_device(position: Fixed, extent: Fixed) -> (r: Option<Fixed>)
    ensures
        r.is_some() == device_coordinate(position@, extent@).is_some(),
        r matches Some(v) ==> Some(v@) == device_coordinate(position@, extent@),
{
    match position.checked_div(extent) {
        Some(share) => narrow(2 * (share.raw as i128) - (SCALE as i128)),
        None => None,
    }
}

/// The canvas: the part of the window that shows the fractal and the
/// coordinates under the cursor.
#[derive(Clone, Copy, Debug, PartialEq, Eq)]
pub struct FractalCanvas {
    view_transform: ViewTransform,
}

impl FractalCanvas {
    /// The matrix of the transform that coordinates are read with.
    pub closed spec fn transform(&self) -> Matrix3Spec {
        self.view_transform@
    }

    /// A canvas that reads coordinates with the initial transform.
    pub fn new() -> (r: FractalCanvas)
        ensures
            r.transform() == initial_spec(),
    {
        FractalCanvas { view_transform: ViewTransform::initial() }
    }

    /// The transform that coordinates are read with.
    pub fn view_transform(&self) -> (r: ViewTransform)
        ensures
            r@ == self.transform(),
    {
        self.view_transform
    }

    /// The point of the complex plane under the cursor, or `None` where
    /// there is nothing to show.
    pub fn cursor_readout(&self, bounds: Rectangle, cursor: Option<Point>) -> (r: Option<Complex>)
        ensures
            view_of(r) == readout_spec(self.transform(), bounds, cursor),
    {
        match cursor {
            Some(position) => match (
                to_device(position.x, bounds.width),
                to_device(position.y, bounds.height),
            ) {
                (Some(x), Some(y)) => self.view_transform.map_point(Vector2 { x, y }),
                _ => None,
            },
            None => None,
        }
    }

    /// Reacts to an event on the canvas.
    pub fn update(
        &self,
        state: &mut State,
        event: Event,
        bounds: Rectangle,
        cursor: Option<Point>,
    ) -> (r: (Status, Option<CanvasMessage>))
        ensures
            (final(state).mode, r.0, r.1) == canvas_update_spec(
                old(state).mode,
                event,
                bounds,
                cursor,
            ),
    {
        match event {
            Event::Mouse(event) => match event {
                MouseEvent::CursorEntered => (Status::Ignored, None),
                MouseEvent::CursorLeft => (Status::Ignored, None),
                MouseEvent::CursorMoved { position } => {
                    match state.mode {
                        Mode::Idle => (Status::Ignored, None),
                        Mode::Panning { start_position } => {
                            let message = CanvasMessage::Pan(
                                start_position.x.saturating_sub(position.x),
                                position.y.saturating_sub(start_position.y),
                            );
                            state.mode = Mode::Panning { start_position: position };
                            (Status::Captured, Some(message))
                        },
                    }
                },
                MouseEvent::ButtonPressed(button) => {
                    match (button, cursor) {
                        (Button::Left, Some(position)) => {
                            state.mode = Mode::Panning { start_position: position };
                            (Status::Captured, None)
                        },
                        _ => (Status::Ignored, None),
                    }
                },
                MouseEvent::ButtonReleased(button) => {
                    match button {
                        Button::Left => {
                            state.mode = Mode::Idle;
                            (Status::Captured, None)
                        },
                        _ => (Status::Ignored, None),
                    }
                },
                MouseEvent::WheelScrolled { delta } => {
                    let on_point = match cursor {
                        Some(position) => position,
                        None => bounds.center(),
                    };
                    let amount = match delta {
                        ScrollDelta::Lines { x, y } => y,
                        ScrollDelta::Pixels { x, y } => y,
                    };
                    (Status::Captured, Some(CanvasMessage::Zoom(amount, on_point)))
                },
            },
            Event::Touch => (Status::Ignored, None),
            Event::Keyboard => (Status::Ignored, None),
        }
    }
}

/// The controls: the canvas, the fractal that is selected, and the last
/// message that was handled and not yet taken.
#[derive(Clone, Copy, Debug, PartialEq, Eq)]
pub struct Controls {
    canvas: FractalCanvas,
    current_type: FractalType,
    last_message: Option<Message>,
}

impl Controls {
    /// The matrix of the transform that the canvas reads coordinates with.
    pub closed spec fn transform(&self) -> Matrix3Spec {
        self.canvas.transform()
    }

    /// The fractal that is selected.
    pub closed spec fn selected(&self) -> FractalType {
        self.current_type
    }

    /// The last message that was handled and not yet taken.
    pub closed spec fn pending(&self) -> Option<Message> {
        self.last_message
    }

    /// The controls at the start: the initial transform, the Mandelbrot set
    /// selected, and no message.
    pub fn new() -> (r: Controls)
        ensures
            r.transform() == initial_spec(),
            r.selected() == FractalType::Mandelbrot,
            r.pending().is_none(),
    {
        Controls {
            canvas: FractalCanvas::new(),
            current_type: FractalType::Mandelbrot,
            last_message: None,
        }
    }

    /// The canvas.
    pub fn canvas(&self) -> (r: FractalCanvas)
        ensures
            r.transform() == self.transform(),
    {
        self.canvas
    }

    /// The fractal that is selected.
    pub fn current_type(&self) -> (r: FractalType)
        ensures
            r == self.selected(),
    {
        self.current_type
    }

    /// The last message that was handled, which is then forgotten.
    pub fn take_last_message(&mut self) -> (r: Option<Message>)
        ensures
            r == old(self).pending(),
            final(self).pending().is_none(),
            final(self).transform() == old(self).transform(),
            final(self).selected() == old(self).selected(),
    {
        let taken = self.last_message;
        self.last_message = None;
        taken
    }

    /// Handles a message: a new transform replaces the canvas's, a selected
    /// fractal becomes the current one, and the message is kept for
    /// `take_last_message`.
    pub fn update(&mut self, message: Message)
        ensures
            final(self).pending() == Some(message),
            final(self).transform() == match message {
                Message::Canvas(CanvasMessage::UpdateViewTransform(t)) => t@,
                _ => old(self).transform(),
            },
            final(self).selected() == match message {
                Message::FractalTypeSelected(selected) => selected,
                _ => old(self).selected(),
            },
    {
        match message {
            Message::Canvas(CanvasMessage::UpdateViewTransform(view_transform)) => {
                self.canvas = FractalCanvas { view_transform };
            },
            Message::Canvas(_) => {},
            Message::FractalTypeSelected(selected_type) => {
                self.current_type = selected_type;
            },
        }
        self.last_message = Some(message);
    }
}

} // verus!
