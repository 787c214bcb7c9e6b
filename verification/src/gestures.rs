//! What pointer, wheel and shift key do to a scroll view: dragging content,
//! dragging a scrollbar, flinging, and stopping a fling.
use crate::geometry::{
    law_pixels_round_trip, law_whole_pixels_reach_the_length, magnitude, to_pixels, whole_pixels, Axis, CursorPoint, SUBPIXELS,
};
use crate::scroll_physics::{
    axis_speed, is_fling, law_velocity_is_bounded, sampled, velocity_of, Sample, VelocityTracker,
    MIN_FLING_VELOCITY,
};
use std::time::Instant;
use vstd::prelude::*;

verus! {

/// How far a pressed pointer moves along an axis before it drags the content:
/// two pixels. Shorter moves are taps, which are left to the children.
pub const DRAG_THRESHOLD: i64 = 33_554_432;

/// Where a wheel event comes from.
#[derive(Clone, Copy, Debug, PartialEq, Eq, Structural)]
pub enum WheelSource {
    /// A wheel or touchpad.
    Device,
    /// Anything else that makes wheel events.
    Custom,
}

/// A key, as far as a scroll view tells keys apart.
#[derive(Clone, Copy, Debug, PartialEq, Eq, Structural)]
pub enum Key {
    ArrowUp,
    ArrowRight,
    ArrowDown,
    ArrowLeft,
    Shift,
    Other,
}

/// Whether a drag or a momentum scroll is active, for the descendants of a
/// scroll view.
#[derive(Clone, Copy, Debug, PartialEq, Eq, Structural)]
pub struct IsScrollingCtx(pub bool);

/// What a release of the pointer calls for.
#[derive(Clone, Copy, Debug, PartialEq, Eq)]
pub struct PressOutcome {
    /// The release belongs to the scroll view: nothing else acts on it.
    pub prevent_default: bool,
    /// A momentum animation is to be started, at this velocity.
    pub fling: Option<(i64, i64)>,
}

/// What a move of the pointer calls for. A move that is not ignored belongs to
/// the scroll view: nothing else acts on it, the scrollbars show, and the view
/// takes the focus.
#[derive(Clone, Copy, Debug, PartialEq, Eq, Structural)]
pub enum MoveOutcome {
    /// Nothing.
    Ignored,
    /// The content is to be scrolled to this position, in pixels.
    Drag { x: i32, y: i32 },
    /// The content is to be scrolled along `axis` to where the thumb of the
    /// scrollbar starts at `cursor`.
    Scrollbar { axis: Axis, cursor: i128 },
}

/// What a turn of the wheel calls for.
#[derive(Clone, Copy, Debug, PartialEq, Eq, Structural)]
pub struct WheelOutcome {
    /// Movement along the horizontal axis.
    pub x_movement: i64,
    /// Movement along the vertical axis.
    pub y_movement: i64,
    /// The running momentum animation is to be stopped.
    pub cancel_momentum: bool,
}

/// State of the gestures on a scroll view.
pub struct Gestures {
    pressing_shift: bool,
    clicking_scrollbar: Option<(Axis, i64)>,
    dragging_content: Option<CursorPoint>,
    drag_origin: Option<CursorPoint>,
    velocity_tracker: VelocityTracker,
    momentum_running: bool,
    suppress_next_press: bool,
    is_scrolling: bool,
}

/// What the state of the gestures is made of.
pub struct GestureState {
    /// The shift key is down.
    pub pressing_shift: bool,
    /// The scrollbar that the pointer holds, and where on its thumb.
    pub clicking_scrollbar: Option<(Axis, i64)>,
    /// Where the pointer was last, while it drags the content.
    pub dragging_content: Option<CursorPoint>,
    /// Where the pointer was pressed.
    pub drag_origin: Option<CursorPoint>,
    /// Where the drag has been.
    pub samples: Seq<Sample>,
    /// A momentum animation runs.
    pub momentum_running: bool,
    /// The next release ends a press that stopped a momentum animation.
    pub suppress_next_press: bool,
    /// A drag or a momentum scroll is active.
    pub is_scrolling: bool,
}

/// A pointer pressed at `origin` and now at `location` has gone far enough to
/// drag the content.
pub open spec fn starts_drag(origin: CursorPoint, location: CursorPoint) -> bool {
    ||| magnitude(origin.x - location.x) > DRAG_THRESHOLD
    ||| magnitude(origin.y - location.y) > DRAG_THRESHOLD
}

/// Position, in pixels, to which content scrolled to `scrolled` goes with a
/// pointer that moves from `from` to `to`.
pub open spec fn drag_position(scrolled: int, from: int, to: int) -> int {
    whole_pixels(scrolled - (from - to))
}

/// A velocity at release is that of a fling.
pub open spec fn flings(velocity: (int, int)) -> bool {
    ||| magnitude(velocity.0) > MIN_FLING_VELOCITY
    ||| magnitude(velocity.1) > MIN_FLING_VELOCITY
}

impl GestureState {
    /// A drag has an origin, no momentum runs while there is one, and the view
    /// counts as scrolling exactly while a drag or a momentum scroll is active.
    pub open spec fn wf(self) -> bool {
        &&& self.dragging_content is Some ==> self.drag_origin is Some
        &&& self.momentum_running ==> self.drag_origin is None
        &&& self.is_scrolling <==> self.dragging_content is Some || self.momentum_running
    }

    /// The state before any event.
    pub open spec fn initial() -> Self {
        GestureState {
            pressing_shift: false,
            clicking_scrollbar: None,
            dragging_content: None,
            drag_origin: None,
            samples: Seq::empty(),
            momentum_running: false,
            suppress_next_press: false,
            is_scrolling: false,
        }
    }

    /// The state once the momentum animation, if one ran, has ended.
    pub open spec fn without_momentum(self) -> Self {
        GestureState {
            momentum_running: false,
            is_scrolling: self.is_scrolling && !self.momentum_running,
            ..self
        }
    }

    /// The state after the pointer was pressed on the content.
    pub open spec fn pressed(self, drag_scrolling: bool, location: CursorPoint) -> Self {
        if drag_scrolling {
            GestureState {
                drag_origin: Some(location),
                samples: Seq::empty(),
                suppress_next_press: self.suppress_next_press || self.momentum_running,
                ..self.without_momentum()
            }
        } else {
            self
        }
    }

    /// A release of the pointer now ends a drag that becomes a fling.
    pub open spec fn release_flings(self, drag_scrolling: bool) -> bool {
        drag_scrolling && self.dragging_content is Some && flings(velocity_of(self.samples))
    }

    /// The state after the pointer was released.
    pub open spec fn released(self, drag_scrolling: bool) -> Self {
        let unclicked = GestureState { clicking_scrollbar: None, ..self };
        if drag_scrolling {
            GestureState {
                dragging_content: None,
                drag_origin: None,
                samples: Seq::empty(),
                suppress_next_press: false,
                momentum_running: self.release_flings(drag_scrolling) || self.momentum_running,
                is_scrolling: self.release_flings(drag_scrolling) || self.momentum_running,
                ..unclicked
            }
        } else {
            unclicked
        }
    }

    /// What a release of the pointer calls for.
    pub open spec fn release_outcome(self, drag_scrolling: bool) -> PressOutcome {
        PressOutcome {
            prevent_default: self.clicking_scrollbar is Some || (drag_scrolling && (
            self.dragging_content is Some || self.suppress_next_press)),
            fling: if self.release_flings(drag_scrolling) {
                let velocity = velocity_of(self.samples);
                Some((velocity.0 as i64, velocity.1 as i64))
            } else {
                None
            },
        }
    }

    /// Where the content is dragged from by a pointer that is now at
    /// `location`, if it is dragged.
    pub open spec fn drags_from(self, drag_scrolling: bool, location: CursorPoint) -> Option<
        CursorPoint,
    > {
        if !drag_scrolling {
            None
        } else if self.dragging_content is Some {
            self.dragging_content
        } else {
            match self.drag_origin {
                Some(origin) if starts_drag(origin, location) => Some(origin),
                _ => None,
            }
        }
    }

    /// The state after the pointer moved to `location` at time `now`.
    pub open spec fn moved(self, drag_scrolling: bool, location: CursorPoint, now: u128) -> Self {
        if self.drags_from(drag_scrolling, location) is Some {
            GestureState {
                dragging_content: Some(location),
                samples: sampled(self.samples, location, now),
                is_scrolling: true,
                ..self
            }
        } else {
            self
        }
    }

    /// What a move of the pointer calls for. The pointer is at `location` on
    /// the screen and at `element_location` on the view, the content is
    /// scrolled to `scrolled`, and the view starts at `area_origin`.
    pub open spec fn move_outcome(
        self,
        drag_scrolling: bool,
        location: CursorPoint,
        element_location: CursorPoint,
        scrolled: CursorPoint,
        area_origin: CursorPoint,
    ) -> MoveOutcome {
        match self.drags_from(drag_scrolling, location) {
            Some(from) => MoveOutcome::Drag {
                x: drag_position(scrolled.x as int, from.x as int, location.x as int) as i32,
                y: drag_position(scrolled.y as int, from.y as int, location.y as int) as i32,
            },
            None => if drag_scrolling && self.drag_origin is Some {
                MoveOutcome::Ignored
            } else {
                match self.clicking_scrollbar {
                    Some((Axis::X, grip)) => MoveOutcome::Scrollbar {
                        axis: Axis::X,
                        cursor: (element_location.x - grip - area_origin.x) as i128,
                    },
                    Some((Axis::Y, grip)) => MoveOutcome::Scrollbar {
                        axis: Axis::Y,
                        cursor: (element_location.y - grip - area_origin.y) as i128,
                    },
                    None => MoveOutcome::Ignored,
                }
            },
        }
    }

    /// A turn of the wheel scrolls across: on a device, where either shift or
    /// the view's own setting asks for it, and not both.
    pub open spec fn inverts_wheel(self, source: WheelSource, invert_scroll_wheel: bool) -> bool {
        source == WheelSource::Device && self.pressing_shift != invert_scroll_wheel
    }
}

impl View for Gestures {
    type V = GestureState;

    closed spec fn view(&self) -> GestureState {
        GestureState {
            pressing_shift: self.pressing_shift,
            clicking_scrollbar: self.clicking_scrollbar,
            dragging_content: self.dragging_content,
            drag_origin: self.drag_origin,
            samples: self.velocity_tracker@,
            momentum_running: self.momentum_running,
            suppress_next_press: self.suppress_next_press,
            is_scrolling: self.is_scrolling,
        }
    }
}

/// Whether `a` and `b` are further apart than the drag threshold.
fn beyond_threshold(a: i64, b: i64) -> (beyond: bool)
    ensures
        beyond <==> magnitude(a - b) > DRAG_THRESHOLD,
{
    let distance: i128 = a as i128 - b as i128;
    distance > DRAG_THRESHOLD as i128 || distance < -(DRAG_THRESHOLD as i128)
}

/// Position, in pixels, to which the content goes with the pointer.
fn get_drag_position(scrolled: i64, from: i64, to: i64) -> (position: i32)
    ensures
        position == drag_position(scrolled as int, from as int, to as int),
{
    to_pixels(scrolled as i128 - (from as i128 - to as i128))
}

impl Gestures {
    /// The instant that the times of a drag count from.
    pub closed spec fn clock_origin(&self) -> Instant {
        self.velocity_tracker.origin()
    }

    /// The state before any event.
    pub fn new() -> (gestures: Self)
        ensures
            gestures@ == GestureState::initial(),
            gestures@.wf(),
    {
        Gestures {
            pressing_shift: false,
            clicking_scrollbar: None,
            dragging_content: None,
            drag_origin: None,
            velocity_tracker: VelocityTracker::default(),
            momentum_running: false,
            suppress_next_press: false,
            is_scrolling: false,
        }
    }

    /// Whether a drag or a momentum scroll is active.
    pub fn is_scrolling(&self) -> (ctx: IsScrollingCtx)
        requires
            self@.wf(),
        ensures
            ctx.0 == self@.is_scrolling,
            ctx.0 <==> self@.dragging_content is Some || self@.momentum_running,
    {
        IsScrollingCtx(self.is_scrolling)
    }

    /// Whether a momentum animation runs.
    pub fn is_momentum_running(&self) -> (running: bool)
        ensures
            running == self@.momentum_running,
    {
        self.momentum_running
    }

    /// The scrollbar that the pointer holds, and where on its thumb.
    pub fn clicking_scrollbar(&self) -> (clicking: Option<(Axis, i64)>)
        ensures
            clicking == self@.clicking_scrollbar,
    {
        self.clicking_scrollbar
    }

    /// The pointer takes hold of the scrollbar of `axis`, at `grip` on its
    /// thumb.
    pub fn click_scrollbar(&mut self, axis: Axis, grip: i64)
        ensures
            final(self).clock_origin() == old(self).clock_origin(),
            final(self)@ == (GestureState {
                clicking_scrollbar: Some((axis, grip)),
                ..old(self)@
            }),
    {
        self.clicking_scrollbar = Some((axis, grip));
    }

    /// Ends the momentum animation, if one runs: it has come to its end, or is
    /// cut short. Returns whether one did run.
    pub fn stop_momentum(&mut self) -> (stopped: bool)
        ensures
            final(self).clock_origin() == old(self).clock_origin(),
            stopped == old(self)@.momentum_running,
            final(self)@ == old(self)@.without_momentum(),
            old(self)@.wf() ==> final(self)@.wf(),
    {
        if self.momentum_running {
            self.momentum_running = false;
            self.is_scrolling = false;
            true
        } else {
            false
        }
    }

    /// The pointer is pressed on the content at `location`. Returns whether
    /// that stops a momentum animation.
    ///
    /// A press that stops an animation is no tap. It can still become a drag:
    /// a swipe the other way needs no second press.
    pub fn pointer_down(&mut self, drag_scrolling: bool, location: CursorPoint) -> (stopped: bool)
        requires
            old(self)@.wf(),
        ensures
            final(self).clock_origin() == old(self).clock_origin(),
            stopped <==> drag_scrolling && old(self)@.momentum_running,
            final(self)@ == old(self)@.pressed(drag_scrolling, location),
            final(self)@.wf(),
    {
        if !drag_scrolling {
            return false;
        }
        let stopped: bool = self.stop_momentum();
        if stopped {
            self.suppress_next_press = true;
        }
        self.velocity_tracker.clear();
        self.drag_origin = Some(location);
        stopped
    }

    /// The pointer is released, wherever that is on the screen.
    pub fn pointer_press(&mut self, drag_scrolling: bool) -> (outcome: PressOutcome)
        requires
            old(self)@.wf(),
        ensures
            final(self).clock_origin() == old(self).clock_origin(),
            outcome == old(self)@.release_outcome(drag_scrolling),
            final(self)@ == old(self)@.released(drag_scrolling),
            final(self)@.wf(),
    {
        let mut prevent_default: bool = false;
        let mut fling: Option<(i64, i64)> = None;
        if self.clicking_scrollbar.is_some() {
            prevent_default = true;
            self.clicking_scrollbar = None;
        }
        if drag_scrolling {
            let was_dragging: bool = self.dragging_content.is_some();
            let was_suppressed: bool = self.suppress_next_press;
            self.suppress_next_press = false;
            self.dragging_content = None;
            self.drag_origin = None;
            if was_dragging || was_suppressed {
                prevent_default = true;
            }
            if was_dragging {
                let (vx, vy): (i64, i64) = self.velocity_tracker.velocity();
                if axis_speed(vx) > MIN_FLING_VELOCITY as u64 || axis_speed(vy)
                    > MIN_FLING_VELOCITY as u64 {
                    fling = Some((vx, vy));
                    self.momentum_running = true;
                } else {
                    self.is_scrolling = false;
                }
            }
            self.velocity_tracker.clear();
        }
        PressOutcome { prevent_default, fling }
    }

    /// The pointer moves, now, to `location` on the screen and
    /// `element_location` on the view. The content is scrolled to `scrolled`
    /// and the view starts at `area_origin`.
    pub fn pointer_move(
        &mut self,
        drag_scrolling: bool,
        location: CursorPoint,
        element_location: CursorPoint,
        scrolled: CursorPoint,
        area_origin: CursorPoint,
    ) -> (outcome: MoveOutcome)
        requires
            old(self)@.wf(),
        ensures
            final(self).clock_origin() == old(self).clock_origin(),
            outcome == old(self)@.move_outcome(
                drag_scrolling,
                location,
                element_location,
                scrolled,
                area_origin,
            ),
            exists|now: u128|
                final(self)@ == #[trigger] old(self)@.moved(drag_scrolling, location, now),
            final(self)@.wf(),
    {
        let now: u128 = self.velocity_tracker.now();
        self.pointer_move_at(drag_scrolling, location, element_location, scrolled, area_origin, now)
    }

    /// The pointer moves as in `pointer_move`, at time `now`: nanoseconds since
    /// the state was made.
    pub fn pointer_move_at(
        &mut self,
        drag_scrolling: bool,
        location: CursorPoint,
        element_location: CursorPoint,
        scrolled: CursorPoint,
        area_origin: CursorPoint,
        now: u128,
    ) -> (outcome: MoveOutcome)
        requires
            old(self)@.wf(),
        ensures
            final(self).clock_origin() == old(self).clock_origin(),
            outcome == old(self)@.move_outcome(
                drag_scrolling,
                location,
                element_location,
                scrolled,
                area_origin,
            ),
            final(self)@ == old(self)@.moved(drag_scrolling, location, now),
            final(self)@.wf(),
    {
        if drag_scrolling {
            let mut from: Option<CursorPoint> = self.dragging_content;
            if let Some(origin) = self.drag_origin {
                if from.is_none() {
                    if beyond_threshold(origin.x, location.x) || beyond_threshold(
                        origin.y,
                        location.y,
                    ) {
                        from = Some(origin);
                    } else {
                        return MoveOutcome::Ignored;
                    }
                }
            }
            if let Some(from) = from {
                self.dragging_content = Some(location);
                self.is_scrolling = true;
                self.velocity_tracker.push_at(location, now);
                return MoveOutcome::Drag {
                    x: get_drag_position(scrolled.x, from.x, location.x),
                    y: get_drag_position(scrolled.y, from.y, location.y),
                };
            }
        }
        match self.clicking_scrollbar {
            Some((Axis::Y, grip)) => MoveOutcome::Scrollbar {
                axis: Axis::Y,
                cursor: element_location.y as i128 - grip as i128 - area_origin.y as i128,
            },
            Some((Axis::X, grip)) => MoveOutcome::Scrollbar {
                axis: Axis::X,
                cursor: element_location.x as i128 - grip as i128 - area_origin.x as i128,
            },
            None => MoveOutcome::Ignored,
        }
    }

    /// The wheel turns by `(delta_x, delta_y)`.
    pub fn wheel(
        &mut self,
        source: WheelSource,
        delta_x: i64,
        delta_y: i64,
        invert_scroll_wheel: bool,
    ) -> (outcome: WheelOutcome)
        requires
            old(self)@.wf(),
        ensures
            final(self).clock_origin() == old(self).clock_origin(),
            outcome == (if old(self)@.inverts_wheel(source, invert_scroll_wheel) {
                WheelOutcome {
                    x_movement: delta_y,
                    y_movement: delta_x,
                    cancel_momentum: old(self)@.momentum_running,
                }
            } else {
                WheelOutcome {
                    x_movement: delta_x,
                    y_movement: delta_y,
                    cancel_momentum: old(self)@.momentum_running,
                }
            }),
            final(self)@ == old(self)@.without_momentum(),
            final(self)@.wf(),
    {
        let inverted: bool = source == WheelSource::Device && self.pressing_shift
            != invert_scroll_wheel;
        let cancel_momentum: bool = self.stop_momentum();
        if inverted {
            WheelOutcome { x_movement: delta_y, y_movement: delta_x, cancel_momentum }
        } else {
            WheelOutcome { x_movement: delta_x, y_movement: delta_y, cancel_momentum }
        }
    }

    /// A key goes down, wherever the focus is.
    pub fn global_key_down(&mut self, key: Key)
        ensures
            final(self).clock_origin() == old(self).clock_origin(),
            final(self)@ == (GestureState {
                pressing_shift: old(self)@.pressing_shift || key == Key::Shift,
                ..old(self)@
            }),
    {
        if key == Key::Shift {
            self.pressing_shift = true;
        }
    }

    /// A key goes up, wherever the focus is.
    pub fn global_key_up(&mut self, key: Key)
        ensures
            final(self).clock_origin() == old(self).clock_origin(),
            final(self)@ == (GestureState {
                pressing_shift: old(self)@.pressing_shift && key != Key::Shift,
                ..old(self)@
            }),
    {
        if key == Key::Shift {
            self.pressing_shift = false;
        }
    }
}

/// A tap is left to the children: while the pointer stays within the drag
/// threshold nothing changes and nothing is called for, and its release starts
/// no fling. The release is the view's only where the press stopped a momentum
/// animation or a scrollbar was held.
pub proof fn law_tap_reaches_children(
    state: GestureState,
    at: CursorPoint,
    to: CursorPoint,
    element_location: CursorPoint,
    scrolled: CursorPoint,
    area_origin: CursorPoint,
    now: u128,
)
    requires
        state.wf(),
        state.dragging_content is None,
        !starts_drag(at, to),
    ensures
        ({
            let pressed = state.pressed(true, at);
            &&& pressed.moved(true, to, now) == pressed
            &&& pressed.move_outcome(true, to, element_location, scrolled, area_origin)
                == MoveOutcome::Ignored
            &&& pressed.release_outcome(true).fling is None
            &&& pressed.release_outcome(true).prevent_default <==> state.momentum_running
                || state.suppress_next_press || state.clicking_scrollbar is Some
        }),
{
}

/// A release ends all that the pointer was at: nothing is dragged or held, no
/// sample is left over for the next drag, and another release calls for
/// nothing.
pub proof fn law_release_ends_gesture(state: GestureState)
    requires
        state.wf(),
    ensures
        ({
            let released = state.released(true);
            &&& released.clicking_scrollbar is None
            &&& released.dragging_content is None
            &&& released.drag_origin is None
            &&& released.samples == Seq::<Sample>::empty()
            &&& released.release_outcome(true) == (PressOutcome {
                prevent_default: false,
                fling: None,
            })
        }),
{
}

/// A press during a momentum animation stops it. The release of that press is
/// no tap, the next one is.
pub proof fn law_press_that_stops_momentum_is_no_tap(
    state: GestureState,
    at: CursorPoint,
    next: CursorPoint,
)
    requires
        state.wf(),
        state.momentum_running,
    ensures
        ({
            let pressed = state.pressed(true, at);
            let pressed_again = pressed.released(true).pressed(true, next);
            &&& !pressed.momentum_running
            &&& !pressed.is_scrolling
            &&& pressed.release_outcome(true) == (PressOutcome {
                prevent_default: true,
                fling: None,
            })
            &&& !pressed_again.release_outcome(true).prevent_default
        }),
{
}

/// A press that stopped a momentum animation can go on to a drag without a
/// second press.
pub proof fn law_swipe_after_stopping_momentum(
    state: GestureState,
    at: CursorPoint,
    to: CursorPoint,
    now: u128,
)
    requires
        state.wf(),
        state.momentum_running,
        starts_drag(at, to),
    ensures
        ({
            let pressed = state.pressed(true, at);
            &&& pressed.drags_from(true, to) == Some(at)
            &&& pressed.moved(true, to, now).dragging_content == Some(to)
            &&& pressed.moved(true, to, now).is_scrolling
        }),
{
}

/// A drag that has begun goes on with every move, however short, from where
/// the last one ended, until the pointer is released.
pub proof fn law_drag_goes_on(
    state: GestureState,
    location: CursorPoint,
    next: CursorPoint,
    now: u128,
)
    requires
        state.wf(),
        state.drags_from(true, location) is Some,
    ensures
        state.moved(true, location, now).drags_from(true, next) == Some(location),
{
}

/// The velocity that a release hands on is that of a fling.
pub proof fn law_release_velocity_is_fling(state: GestureState, drag_scrolling: bool)
    ensures
        state.release_outcome(drag_scrolling).fling matches Some((vx, vy)) ==> is_fling(
            vx as int,
            vy as int,
        ),
{
    let (vx, vy) = velocity_of(state.samples);
    let least = MIN_FLING_VELOCITY as int;
    law_velocity_is_bounded(state.samples);
    if magnitude(vx) > least {
        assert(vx * vx + vy * vy >= least * least) by (nonlinear_arith)
            requires
                vx > least || -vx > least,
                least > 0,
        ;
    }
    if magnitude(vy) > least {
        assert(vx * vx + vy * vy >= least * least) by (nonlinear_arith)
            requires
                vy > least || -vy > least,
                least > 0,
        ;
    }
}

/// Content follows a drag to within a pixel: in every move of the drag, the
/// first and all later ones, what the content is scrolled by differs by less
/// than a pixel from what the pointer has moved by, as far as `i32` can count.
pub proof fn law_drag_moves_content_with_pointer(
    state: GestureState,
    from: CursorPoint,
    location: CursorPoint,
    element_location: CursorPoint,
    scrolled: CursorPoint,
    area_origin: CursorPoint,
)
    requires
        state.dragging_content == Some(from) || (state.dragging_content is None
            && state.drag_origin == Some(from) && starts_drag(from, location)),
        -2_147_483_648 * 16_777_216 <= scrolled.x + location.x - from.x <= 2_147_483_647
            * 16_777_216,
        -2_147_483_648 * 16_777_216 <= scrolled.y + location.y - from.y <= 2_147_483_647
            * 16_777_216,
    ensures
        state.move_outcome(true, location, element_location, scrolled, area_origin) matches
            MoveOutcome::Drag { x, y } && -16_777_216 < (x * 16_777_216 - scrolled.x) - (
        location.x - from.x) < 16_777_216 && -16_777_216 < (y * 16_777_216 - scrolled.y) - (
        location.y - from.y) < 16_777_216,
{
    law_whole_pixels_reach_the_length(scrolled.x - (from.x - location.x));
    law_whole_pixels_reach_the_length(scrolled.y - (from.y - location.y));
}

/// A drag begins exactly beyond two pixels along either axis.
pub proof fn law_drag_threshold(origin: CursorPoint, location: CursorPoint)
    ensures
        starts_drag(origin, location) <==> origin.x - location.x > 33_554_432 || location.x
            - origin.x > 33_554_432 || origin.y - location.y > 33_554_432 || location.y - origin.y
            > 33_554_432,
{
}

/// Dragged content follows the pointer: a pointer that moves by whole pixels
/// moves content that lies on a whole pixel by as many.
pub proof fn law_content_follows_pointer(scrolled: i32, from: CursorPoint, moved: i32)
    requires
        i32::MIN <= scrolled + moved <= i32::MAX,
    ensures
        drag_position(
            scrolled * SUBPIXELS,
            from.x as int,
            from.x + moved * SUBPIXELS,
        ) == scrolled + moved,
        drag_position(
            scrolled * SUBPIXELS,
            from.y as int,
            from.y + moved * SUBPIXELS,
        ) == scrolled + moved,
{
    let pixels = (scrolled + moved) as i32;
    law_pixels_round_trip(pixels);
    assert(scrolled * SUBPIXELS + moved * SUBPIXELS == pixels * SUBPIXELS);
}

/// With drag scrolling off the pointer neither drags content nor flings it, and
/// stops no momentum.
pub proof fn law_drag_scrolling_can_be_off(
    state: GestureState,
    location: CursorPoint,
    now: u128,
)
    ensures
        state.pressed(false, location) == state,
        state.moved(false, location, now) == state,
        state.release_outcome(false).fling is None,
        state.released(false).momentum_running == state.momentum_running,
{
}

/// Shift turns the axes of a device's wheel, the view's setting does, and the
/// two together cancel. Other wheel events keep their axes.
pub proof fn law_wheel_inversion(state: GestureState, invert_scroll_wheel: bool)
    ensures
        !state.inverts_wheel(WheelSource::Custom, invert_scroll_wheel),
        state.inverts_wheel(WheelSource::Device, true) <==> !state.pressing_shift,
        state.inverts_wheel(WheelSource::Device, false) <==> state.pressing_shift,
{
}

/// Before any event nothing is pressed, held, dragged or running.
pub proof fn law_gestures_begin_at_rest()
    ensures
        ({
            let state = GestureState::initial();
            &&& !state.pressing_shift
            &&& state.clicking_scrollbar is None
            &&& state.dragging_content is None
            &&& state.drag_origin is None
            &&& state.samples.len() == 0
            &&& !state.momentum_running
            &&& !state.suppress_next_press
            &&& !state.is_scrolling
        }),
{
}

/// A view counts as scrolling exactly while content is dragged or a momentum
/// animation runs, never both at once, and content is only dragged from where
/// it was pressed.
pub proof fn law_scrolling_is_drag_or_momentum(state: GestureState)
    ensures
        state.wf() <==> {
            &&& state.is_scrolling == (state.dragging_content is Some || state.momentum_running)
            &&& state.drag_origin is None ==> state.dragging_content is None
            &&& !(state.drag_origin is Some && state.momentum_running)
        },
        state.wf() ==> !(state.dragging_content is Some && state.momentum_running),
{
}

/// The end of a momentum animation ends what there is of it, and nothing else.
pub proof fn law_end_of_momentum(state: GestureState)
    ensures
        ({
            let ended = state.without_momentum();
            &&& !ended.momentum_running
            &&& ended.is_scrolling <==> state.is_scrolling && !state.momentum_running
            &&& ended.pressing_shift == state.pressing_shift
            &&& ended.clicking_scrollbar == state.clicking_scrollbar
            &&& ended.dragging_content == state.dragging_content
            &&& ended.drag_origin == state.drag_origin
            &&& ended.samples == state.samples
            &&& ended.suppress_next_press == state.suppress_next_press
        }),
{
}

/// A press sets the origin of a drag, forgets where earlier ones have been and
/// stops a momentum animation, which the next release is then held back for.
/// All else stays.
pub proof fn law_press(state: GestureState, location: CursorPoint)
    ensures
        ({
            let pressed = state.pressed(true, location);
            &&& pressed.drag_origin == Some(location)
            &&& pressed.samples.len() == 0
            &&& !pressed.momentum_running
            &&& pressed.suppress_next_press <==> state.suppress_next_press
                || state.momentum_running
            &&& pressed.is_scrolling <==> state.is_scrolling && !state.momentum_running
            &&& pressed.dragging_content == state.dragging_content
            &&& pressed.clicking_scrollbar == state.clicking_scrollbar
            &&& pressed.pressing_shift == state.pressing_shift
        }),
        state.pressed(false, location) == state,
{
}

/// A release lets go of the scrollbar, and with drag scrolling on it ends the
/// drag. It starts a momentum animation exactly where content was dragged and
/// its velocity along either axis is above 150 px/s, and hands on that
/// velocity. It belongs to the view where a scrollbar was held, content was
/// dragged, or the press had stopped a momentum animation.
pub proof fn law_release(state: GestureState, drag_scrolling: bool)
    ensures
        ({
            let (vx, vy) = velocity_of(state.samples);
            let fast = vx > 2_516_582_400 || vx < -2_516_582_400 || vy > 2_516_582_400 || vy
                < -2_516_582_400;
            let flung = drag_scrolling && state.dragging_content is Some && fast;
            let released = state.released(drag_scrolling);
            let outcome = state.release_outcome(drag_scrolling);
            &&& released.clicking_scrollbar is None
            &&& released.pressing_shift == state.pressing_shift
            &&& drag_scrolling ==> {
                &&& released.dragging_content is None
                &&& released.drag_origin is None
                &&& released.samples.len() == 0
                &&& !released.suppress_next_press
                &&& released.momentum_running <==> flung || state.momentum_running
                &&& released.is_scrolling <==> flung || state.momentum_running
            }
            &&& !drag_scrolling ==> {
                &&& released.dragging_content == state.dragging_content
                &&& released.drag_origin == state.drag_origin
                &&& released.samples == state.samples
                &&& released.suppress_next_press == state.suppress_next_press
                &&& released.momentum_running == state.momentum_running
                &&& released.is_scrolling == state.is_scrolling
            }
            &&& outcome.fling is Some <==> flung
            &&& outcome.fling matches Some((x, y)) ==> x == vx && y == vy
            &&& outcome.prevent_default <==> state.clicking_scrollbar is Some || (drag_scrolling
                && (state.dragging_content is Some || state.suppress_next_press))
        }),
{
    law_velocity_is_bounded(state.samples);
}

/// What a move of the pointer does. While content is dragged, and when the
/// pointer has gone more than two pixels from where it was pressed, the content
/// is scrolled, along each axis, by as much as the pointer has moved since then
/// or since the last move, fractions of a pixel dropped; the drag goes on from
/// here and takes a sample. A pressed pointer that has gone no further does
/// nothing. Any other pointer moves the thumb of the scrollbar that it holds,
/// if it holds one.
pub proof fn law_move(
    state: GestureState,
    drag_scrolling: bool,
    location: CursorPoint,
    element_location: CursorPoint,
    scrolled: CursorPoint,
    area_origin: CursorPoint,
    now: u128,
)
    ensures
        ({
            let origin = state.drag_origin->0;
            let far = origin.x - location.x > 33_554_432 || location.x - origin.x > 33_554_432
                || origin.y - location.y > 33_554_432 || location.y - origin.y > 33_554_432;
            let goes_on = drag_scrolling && state.dragging_content is Some;
            let begins = drag_scrolling && state.dragging_content is None && state.drag_origin
                is Some && far;
            let waits = drag_scrolling && state.dragging_content is None && state.drag_origin
                is Some && !far;
            let from = if goes_on {
                state.dragging_content->0
            } else {
                origin
            };
            let moved = state.moved(drag_scrolling, location, now);
            let outcome = state.move_outcome(
                drag_scrolling,
                location,
                element_location,
                scrolled,
                area_origin,
            );
            &&& goes_on || begins ==> {
                &&& outcome matches MoveOutcome::Drag { x, y } && x == whole_pixels(
                    scrolled.x + location.x - from.x,
                ) && y == whole_pixels(scrolled.y + location.y - from.y)
                &&& moved.dragging_content == Some(location)
                &&& moved.samples == sampled(state.samples, location, now)
                &&& moved.is_scrolling
                &&& moved.drag_origin == state.drag_origin
                &&& moved.pressing_shift == state.pressing_shift
                &&& moved.clicking_scrollbar == state.clicking_scrollbar
                &&& moved.momentum_running == state.momentum_running
                &&& moved.suppress_next_press == state.suppress_next_press
            }
            &&& !goes_on && !begins ==> moved == state
            &&& waits ==> outcome == MoveOutcome::Ignored
            &&& !goes_on && !begins && !waits ==> match state.clicking_scrollbar {
                None => outcome == MoveOutcome::Ignored,
                Some((held, grip)) => {
                    &&& outcome matches MoveOutcome::Scrollbar { axis, cursor } && axis == held
                        && cursor == (match held {
                        Axis::X => element_location.x - grip - area_origin.x,
                        Axis::Y => element_location.y - grip - area_origin.y,
                    })
                },
            }
        }),
{
}

} // verus!
