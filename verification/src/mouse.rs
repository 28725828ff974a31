//! Gesture recognizer: turns pointer positions into arm, trigger and cancel
//! events by following the pointer around the four corners of the screen.

use vstd::prelude::*;

use crate::audio::SoundCue;
use crate::state::ApplicationState;

verus! {

/// Milliseconds between two pointer readings.
pub const POLL_INTERVAL_MS: u64 = 200;

/// Progress of the pointer along the corner path.
#[derive(Clone, Copy, Debug, PartialEq, Eq, Structural)]
pub enum Position {
    /// The first corner was reached.
    TopLeft,
    /// The last corner was reached, which closes the path; from here the
    /// next path begins.
    TopRight,
    /// The third corner was reached.
    BottomRight,
    /// The second corner was reached.
    BottomLeft,
    /// No corner was reached since the start or since the pointer was in the
    /// center.
    Outside,
    /// Reserved: no reading leads here, and from here the path begins as
    /// from `Outside`.
    Inside,
}

/// The central rectangle of the screen, given by its four edges in pixels.
#[derive(Clone, Copy, Debug, PartialEq, Eq, Structural)]
pub struct SafeArea {
    pub margin_left: u32,
    pub margin_right: u32,
    pub margin_top: u32,
    pub margin_bottom: u32,
}

impl SafeArea {
    /// The point lies strictly inside the central rectangle.
    pub open spec fn contains(self, x: u32, y: u32) -> bool {
        self.margin_left < x < self.margin_right && self.margin_top < y < self.margin_bottom
    }

    pub open spec fn in_top_left(self, x: u32, y: u32) -> bool {
        x < self.margin_left && y < self.margin_top
    }

    pub open spec fn in_bottom_left(self, x: u32, y: u32) -> bool {
        x < self.margin_left && y > self.margin_bottom
    }

    pub open spec fn in_bottom_right(self, x: u32, y: u32) -> bool {
        x > self.margin_right && y > self.margin_bottom
    }

    pub open spec fn in_top_right(self, x: u32, y: u32) -> bool {
        x > self.margin_right && y < self.margin_top
    }

    /// The left edge lies left of the right one and the top edge above the
    /// bottom one, so that no point is in two corners.
    pub open spec fn consistent(self) -> bool {
        self.margin_left <= self.margin_right && self.margin_top <= self.margin_bottom
    }
}

/// The safe area of a display: a sixth of the width is left free on each
/// side, if the display is high enough for that.
pub open spec fn safe_area_of(width: u32, height: u32) -> Option<SafeArea> {
    let margin = width / 6;
    if margin <= height {
        Some(
            SafeArea {
                margin_left: margin,
                margin_right: (width - margin) as u32,
                margin_top: margin,
                margin_bottom: (height - margin) as u32,
            },
        )
    } else {
        None
    }
}

/// The safe area of a display of `width` by `height` pixels, or `None` for a
/// display lower than a sixth of its width.
pub fn get_safe_area(width: u32, height: u32) -> (area: Option<SafeArea>)
    ensures
        area == safe_area_of(width, height),
        area matches Some(a) ==> (a.consistent() <==> 2 * (width / 6) <= height),
{
    let margin: u32 = width / 6;
    if margin <= height {
        Some(
            SafeArea {
                margin_top: margin,
                margin_left: margin,
                margin_bottom: height - margin,
                margin_right: width - margin,
            },
        )
    } else {
        None
    }
}

/// One transition of the corner path: the next position, and whether this
/// reading closed a full circuit.
pub open spec fn step(state: Position, x: u32, y: u32, area: SafeArea) -> (Position, bool) {
    if area.contains(x, y) {
        (Position::Outside, false)
    } else {
        match state {
            Position::Outside | Position::TopRight | Position::Inside => {
                if area.in_top_left(x, y) {
                    (Position::TopLeft, false)
                } else {
                    (state, false)
                }
            },
            Position::TopLeft => {
                if area.in_bottom_left(x, y) {
                    (Position::BottomLeft, false)
                } else {
                    (state, false)
                }
            },
            Position::BottomLeft => {
                if area.in_bottom_right(x, y) {
                    (Position::BottomRight, false)
                } else {
                    (state, false)
                }
            },
            Position::BottomRight => {
                if area.in_top_right(x, y) {
                    (Position::TopRight, true)
                } else {
                    (state, false)
                }
            },
        }
    }
}

/// Advances `position` by one pointer reading and returns `true` when the
/// reading closes the path.
pub fn path_completed(position: &mut Position, safe_area: &SafeArea, x: u32, y: u32) -> (closed: bool)
    ensures
        (*final(position), closed) == step(*old(position), x, y, *safe_area),
        safe_area.contains(x, y) ==> *final(position) == Position::Outside && !closed,
{
    if (x > safe_area.margin_left && x < safe_area.margin_right) && (y > safe_area.margin_top && y
        < safe_area.margin_bottom) {
        *position = Position::Outside;
        return false;
    }
    match *position {
        Position::Outside | Position::TopRight | Position::Inside => {
            if x < safe_area.margin_left && y < safe_area.margin_top {
                *position = Position::TopLeft;
            }
        },
        Position::TopLeft => {
            if x < safe_area.margin_left && y > safe_area.margin_bottom {
                *position = Position::BottomLeft;
            }
        },
        Position::BottomLeft => {
            if x > safe_area.margin_right && y > safe_area.margin_bottom {
                *position = Position::BottomRight;
            }
        },
        Position::BottomRight => {
            if x > safe_area.margin_right && y < safe_area.margin_top {
                *position = Position::TopRight;
                return true;
            }
        },
    }
    false
}

/// The corner path can be entered from `state`.
pub open spec fn is_start(state: Position) -> bool {
    state == Position::Outside || state == Position::TopRight || state == Position::Inside
}

/// Visiting the four corners in order closes the path at the fourth corner
/// and at none before it, whether the path is entered afresh or the margins
/// are consistent.
pub proof fn lemma_circuit_closes_once(
    area: SafeArea,
    start: Position,
    top_left: (u32, u32),
    bottom_left: (u32, u32),
    bottom_right: (u32, u32),
    top_right: (u32, u32),
)
    requires
        area.in_top_left(top_left.0, top_left.1),
        area.in_bottom_left(bottom_left.0, bottom_left.1),
        area.in_bottom_right(bottom_right.0, bottom_right.1),
        area.in_top_right(top_right.0, top_right.1),
        is_start(start) || area.consistent(),
    ensures
        ({
            let first = step(start, top_left.0, top_left.1, area);
            let second = step(first.0, bottom_left.0, bottom_left.1, area);
            let third = step(second.0, bottom_right.0, bottom_right.1, area);
            let fourth = step(third.0, top_right.0, top_right.1, area);
            &&& !first.1
            &&& !second.1
            &&& !third.1
            &&& fourth.1
            &&& fourth.0 == Position::TopRight
        }),
{
}

/// A reading strictly inside the safe area resets the path and closes
/// nothing, whatever the position was.
pub proof fn lemma_center_resets(area: SafeArea, state: Position, x: u32, y: u32)
    requires
        area.contains(x, y),
    ensures
        step(state, x, y, area) == (Position::Outside, false),
{
}

/// After any progress, a reading in the center leaves the recognizer where
/// the same four corners close the path again.
pub proof fn lemma_no_lockout(
    area: SafeArea,
    state: Position,
    center: (u32, u32),
    top_left: (u32, u32),
    bottom_left: (u32, u32),
    bottom_right: (u32, u32),
    top_right: (u32, u32),
)
    requires
        area.contains(center.0, center.1),
        area.in_top_left(top_left.0, top_left.1),
        area.in_bottom_left(bottom_left.0, bottom_left.1),
        area.in_bottom_right(bottom_right.0, bottom_right.1),
        area.in_top_right(top_right.0, top_right.1),
    ensures
        ({
            let reset = step(state, center.0, center.1, area);
            let first = step(reset.0, top_left.0, top_left.1, area);
            let second = step(first.0, bottom_left.0, bottom_left.1, area);
            let third = step(second.0, bottom_right.0, bottom_right.1, area);
            let fourth = step(third.0, top_right.0, top_right.1, area);
            &&& reset == (Position::Outside, false)
            &&& !first.1
            &&& !second.1
            &&& !third.1
            &&& fourth.1
        }),
{
}

/// What a pointer reading meant to the recognizer.
#[derive(Clone, Copy, Debug, PartialEq, Eq, Structural)]
pub enum GestureEvent {
    /// A first closed path: the next one triggers.
    Armed,
    /// A closed path while armed: the backup runs.
    Triggered,
    /// The pointer came back to the center while armed.
    Cancelled,
}

impl GestureEvent {
    /// The sound that announces the event.
    pub open spec fn cue_of(self) -> SoundCue {
        match self {
            GestureEvent::Armed => SoundCue::Arm,
            GestureEvent::Triggered => SoundCue::Trigger,
            GestureEvent::Cancelled => SoundCue::Cancel,
        }
    }

    /// The sound that announces the event.
    pub fn cue(&self) -> (cue: SoundCue)
        ensures
            cue == self.cue_of(),
    {
        match self {
            GestureEvent::Armed => SoundCue::Arm,
            GestureEvent::Triggered => SoundCue::Trigger,
            GestureEvent::Cancelled => SoundCue::Cancel,
        }
    }
}

/// The event of one reading, and whether the recognizer is armed after it:
/// `closed` and `next` are what `step` gave for the reading.
pub open spec fn react(armed: bool, next: Position, closed: bool) -> (bool, Option<GestureEvent>) {
    if armed {
        if closed {
            (false, Some(GestureEvent::Triggered))
        } else if next == Position::Outside {
            (false, Some(GestureEvent::Cancelled))
        } else {
            (true, None)
        }
    } else if closed {
        (true, Some(GestureEvent::Armed))
    } else {
        (false, None)
    }
}

/// The recognizer: the position on the corner path and whether a first path
/// was closed. While armed, the position is never `Outside`.
#[derive(Debug)]
pub struct Recognizer {
    position: Position,
    armed: bool,
    safe_area: SafeArea,
}

impl Recognizer {
    #[verifier::type_invariant]
    spec fn armed_on_the_path(self) -> bool {
        self.armed ==> self.position != Position::Outside
    }

    pub closed spec fn position(&self) -> Position {
        self.position
    }

    pub closed spec fn armed(&self) -> bool {
        self.armed
    }

    pub closed spec fn safe_area(&self) -> SafeArea {
        self.safe_area
    }

    /// A disarmed recognizer at the start of the path.
    pub fn new(safe_area: SafeArea) -> (recognizer: Self)
        ensures
            recognizer.position() == Position::Outside,
            !recognizer.armed(),
            recognizer.safe_area() == safe_area,
    {
        Recognizer { position: Position::Outside, armed: false, safe_area }
    }

    /// Whether a first path was closed and not yet used or cancelled.
    pub fn is_armed(&self) -> (armed: bool)
        ensures
            armed == self.armed(),
    {
        self.armed
    }

    /// The position on the corner path.
    pub fn current_position(&self) -> (position: Position)
        ensures
            position == self.position(),
    {
        self.position
    }

    /// Takes one pointer reading. The position follows `step`; a closed path
    /// arms a disarmed recognizer and triggers an armed one; an armed one is
    /// cancelled exactly when the reading lies strictly inside the safe area.
    pub fn observe(&mut self, x: u32, y: u32) -> (event: Option<GestureEvent>)
        ensures
            final(self).safe_area() == old(self).safe_area(),
            final(self).position() == step(
                old(self).position(),
                x,
                y,
                old(self).safe_area(),
            ).0,
            (final(self).armed(), event) == react(
                old(self).armed(),
                final(self).position(),
                step(old(self).position(), x, y, old(self).safe_area()).1,
            ),
            event == Some(GestureEvent::Cancelled) <==> old(self).armed() && old(
                self,
            ).safe_area().contains(x, y),
    {
        proof {
            use_type_invariant(&*self);
        }
        let area = self.safe_area;
        let mut position = self.position;
        let armed = self.armed;
        let closed = path_completed(&mut position, &area, x, y);
        if armed {
            if closed {
                self.armed = false;
                self.position = position;
                Some(GestureEvent::Triggered)
            } else if position == Position::Outside {
                self.armed = false;
                self.position = position;
                Some(GestureEvent::Cancelled)
            } else {
                self.position = position;
                None
            }
        } else if closed {
            self.position = position;
            self.armed = true;
            Some(GestureEvent::Armed)
        } else {
            self.position = position;
            None
        }
    }
}

/// What the pointer source gave for one poll.
#[derive(Clone, Copy, Debug, PartialEq, Eq, Structural)]
pub enum PointerReading {
    Position { x: i32, y: i32 },
    Error,
}

/// What the polling loop does after one poll.
#[derive(Clone, Copy, Debug, PartialEq, Eq, Structural)]
pub enum MouseAction {
    /// The application quits: leave the loop.
    Stop,
    /// The pointer cannot be read: report it and leave the loop.
    Fail,
    /// Announce the event if there is one, run the backup if it is
    /// `Triggered`, then wait `POLL_INTERVAL_MS` and poll again.
    Continue(Option<GestureEvent>),
}

/// A signed screen coordinate read as an unsigned one: a negative one wraps
/// round, which puts it beyond every margin.
pub open spec fn screen_coordinate(value: i32) -> u32 {
    if value >= 0 {
        value as u32
    } else {
        (value + 0x1_0000_0000) as u32
    }
}

/// What `mouse_main` answers, and the recognizer after it.
pub open spec fn mouse_main_spec(
    position: Position,
    armed: bool,
    area: SafeArea,
    state: ApplicationState,
    reading: PointerReading,
) -> (Position, bool, MouseAction) {
    if state == ApplicationState::Quit {
        (position, armed, MouseAction::Stop)
    } else {
        match reading {
            PointerReading::Error => (position, armed, MouseAction::Fail),
            PointerReading::Position { x, y } => {
                let moved = step(position, screen_coordinate(x), screen_coordinate(y), area);
                let reaction = react(armed, moved.0, moved.1);
                (moved.0, reaction.0, MouseAction::Continue(reaction.1))
            },
        }
    }
}

/// One round of the polling loop: decides from the application state and the
/// pointer reading what the loop does next. On `Quit` the reading is not
/// looked at and the recognizer stays as it is; so it does when the pointer
/// cannot be read.
pub fn mouse_main(
    recognizer: &mut Recognizer,
    state: ApplicationState,
    reading: PointerReading,
) -> (action: MouseAction)
    ensures
        final(recognizer).safe_area() == old(recognizer).safe_area(),
        (final(recognizer).position(), final(recognizer).armed(), action) == mouse_main_spec(
            old(recognizer).position(),
            old(recognizer).armed(),
            old(recognizer).safe_area(),
            state,
            reading,
        ),
{
    if state == ApplicationState::Quit {
        return MouseAction::Stop;
    }
    match reading {
        PointerReading::Error => MouseAction::Fail,
        PointerReading::Position { x, y } => {
            let ux: u32 = unsigned_coordinate(x);
            let uy: u32 = unsigned_coordinate(y);
            MouseAction::Continue(recognizer.observe(ux, uy))
        },
    }
}

/// Reads a signed coordinate as an unsigned one of the same bits.
fn unsigned_coordinate(value: i32) -> (coordinate: u32)
    ensures
        coordinate == screen_coordinate(value),
{
    assert(value as u32 == if value >= 0 {
        value as u32
    } else {
        (value + 0x1_0000_0000) as u32
    }) by (bit_vector);
    value as u32
}

} // verus!
