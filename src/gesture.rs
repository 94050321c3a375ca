use vstd::prelude::*;

verus! {

/// One of the four movement intents a drag can express.
#[derive(Clone, Copy, Debug, PartialEq, Eq, Structural)]
pub enum Direction {
    Up,
    Down,
    Left,
    Right,
}

/// The momentary movement intents of one frame.
#[derive(Clone, Copy, Debug, PartialEq, Eq, Structural)]
pub struct DirectionFlags {
    pub up: bool,
    pub down: bool,
    pub left: bool,
    pub right: bool,
}

/// The phase a touch point reports in a frame.
#[derive(Clone, Copy, Debug, PartialEq, Eq, Structural)]
pub enum TouchPhase {
    Started,
    Moved,
    Stationary,
    Ended,
    Cancelled,
}

/// The first touch point of a frame, in integer screen units.
#[derive(Clone, Copy, Debug, PartialEq, Eq, Structural)]
pub struct TouchEvent {
    pub x: i32,
    pub y: i32,
    pub phase: TouchPhase,
}

/// The direction a drag selects and the angle, in degrees, of the compass
/// sector drawn as feedback.
#[derive(Clone, Copy, Debug, PartialEq, Eq, Structural)]
pub struct Classification {
    pub direction: Direction,
    pub sector: i32,
}

// The six angle ranges of a drag vector `(vx, vy) = start - current`, whose
// angle is `atan2(vy, vx)` in degrees, in (-180, 180]. Each is written as the
// linear conditions on the vector that place its angle in the range.

/// Angle in [0, 45).
pub open spec fn in_range_0_45(vx: int, vy: int) -> bool {
    vx > 0 && 0 <= vy < vx
}

/// Angle in [45, 135).
pub open spec fn in_range_45_135(vx: int, vy: int) -> bool {
    vy > 0 && vx <= vy && -vx < vy
}

/// Angle in [135, 180].
pub open spec fn in_range_135_180(vx: int, vy: int) -> bool {
    vx < 0 && 0 <= vy <= -vx
}

/// Angle in [-180, -135].
pub open spec fn in_range_neg180_neg135(vx: int, vy: int) -> bool {
    vx < 0 && vx <= vy < 0
}

/// Angle in (-135, -45].
pub open spec fn in_range_neg135_neg45(vx: int, vy: int) -> bool {
    vy < 0 && vy < vx && vy <= -vx
}

/// Angle in (-45, 0).
pub open spec fn in_range_neg45_0(vx: int, vy: int) -> bool {
    vx > 0 && -vx < vy < 0
}

/// The range a nonzero drag vector falls in, numbered in the order above.
pub open spec fn range_of(vx: int, vy: int) -> int {
    if in_range_0_45(vx, vy) {
        0
    } else if in_range_45_135(vx, vy) {
        1
    } else if in_range_135_180(vx, vy) {
        2
    } else if in_range_neg180_neg135(vx, vy) {
        3
    } else if in_range_neg135_neg45(vx, vy) {
        4
    } else {
        5
    }
}

pub open spec fn direction_of_range(r: int) -> Direction {
    if r == 1 {
        Direction::Up
    } else if r == 2 || r == 3 {
        Direction::Right
    } else if r == 4 {
        Direction::Down
    } else {
        Direction::Left
    }
}

pub open spec fn sector_of(d: Direction) -> int {
    match d {
        Direction::Left => 135,
        Direction::Up => 225,
        Direction::Right => 315,
        Direction::Down => 45,
    }
}

pub open spec fn classification_of(vx: int, vy: int) -> Classification {
    let d = direction_of_range(range_of(vx, vy));
    Classification { direction: d, sector: sector_of(d) as i32 }
}

pub open spec fn flags_of(d: Direction) -> DirectionFlags {
    DirectionFlags {
        up: d == Direction::Up,
        down: d == Direction::Down,
        left: d == Direction::Left,
        right: d == Direction::Right,
    }
}

pub open spec fn no_flags() -> DirectionFlags {
    DirectionFlags { up: false, down: false, left: false, right: false }
}

/// Classifies a drag from `(sx, sy)` to `(cx, cy)`; a drag of length zero
/// selects nothing.
pub fn classify_drag(sx: i32, sy: i32, cx: i32, cy: i32) -> (r: Option<Classification>)
    ensures
        (sx == cx && sy == cy) ==> r is None,
        !(sx == cx && sy == cy) ==> r == Some(classification_of(sx - cx, sy - cy)),
{
    if sx == cx && sy == cy {
        return None;
    }
    let vx: i64 = sx as i64 - cx as i64;
    let vy: i64 = sy as i64 - cy as i64;
    let direction = if vx > 0 && 0 <= vy && vy < vx {
        Direction::Left
    } else if vy > 0 && vx <= vy && -vx < vy {
        Direction::Up
    } else if vx < 0 && 0 <= vy && vy <= -vx {
        Direction::Right
    } else if vx < 0 && vx <= vy && vy < 0 {
        Direction::Right
    } else if vy < 0 && vy < vx && vy <= -vx {
        Direction::Down
    } else {
        Direction::Left
    };
    let sector: i32 = match direction {
        Direction::Left => 135,
        Direction::Up => 225,
        Direction::Right => 315,
        Direction::Down => 45,
    };
    Some(Classification { direction, sector })
}

/// Every nonzero drag vector, that is every angle in (-180, 180], falls in
/// exactly one of the six ranges, so a drag always sets exactly one flag.
pub proof fn lemma_ranges_exhaustive(vx: int, vy: int)
    requires
        vx != 0 || vy != 0,
    ensures
        (if in_range_0_45(vx, vy) { 1int } else { 0 }) + (if in_range_45_135(vx, vy) { 1int } else { 0 })
            + (if in_range_135_180(vx, vy) { 1int } else { 0 }) + (if in_range_neg180_neg135(vx, vy) { 1int } else { 0 })
            + (if in_range_neg135_neg45(vx, vy) { 1int } else { 0 }) + (if in_range_neg45_0(vx, vy) { 1int } else { 0 }) == 1,
        ({
            let f = flags_of(classification_of(vx, vy).direction);
            (if f.up { 1int } else { 0 }) + (if f.down { 1int } else { 0 }) + (if f.left { 1int } else { 0 })
                + (if f.right { 1int } else { 0 }) == 1
        }),
{
}

/// A position on screen, in integer screen units.
#[derive(Clone, Copy, Debug, PartialEq, Eq, Structural)]
pub struct Point {
    pub x: i32,
    pub y: i32,
}

/// The gesture tracker: the start of the active drag, if a finger is down.
#[derive(Clone, Copy, Debug, PartialEq, Eq, Structural)]
pub struct GestureState {
    pub start: Option<Point>,
}

/// What a frame's touch yields: the momentary flags and the feedback sector.
#[derive(Clone, Copy, Debug, PartialEq, Eq, Structural)]
pub struct FrameInput {
    pub flags: DirectionFlags,
    pub feedback: Option<Classification>,
}

/// The tracker after a frame's touch, if any.
pub open spec fn next_state(st: GestureState, touch: Option<TouchEvent>) -> GestureState {
    match touch {
        None => st,
        Some(t) => match t.phase {
            TouchPhase::Started => GestureState { start: Some(Point { x: t.x, y: t.y }) },
            TouchPhase::Ended | TouchPhase::Cancelled => GestureState { start: None },
            _ => st,
        },
    }
}

/// What a frame's touch yields: flags start cleared; a live touch whose
/// position differs from the drag's start sets the one flag of its range.
pub open spec fn frame_input(st: GestureState, touch: Option<TouchEvent>) -> FrameInput {
    let ns = next_state(st, touch);
    match touch {
        Some(t) => match ns.start {
            Some(s) => if s.x == t.x && s.y == t.y {
                FrameInput { flags: no_flags(), feedback: None }
            } else {
                let c = classification_of(s.x - t.x, s.y - t.y);
                FrameInput { flags: flags_of(c.direction), feedback: Some(c) }
            },
            None => FrameInput { flags: no_flags(), feedback: None },
        },
        None => FrameInput { flags: no_flags(), feedback: None },
    }
}

impl GestureState {
    pub fn new() -> (r: GestureState)
        ensures
            r.start is None,
    {
        GestureState { start: None }
    }

    /// Feeds the first touch of a frame (or none) and returns that frame's
    /// movement intents.
    pub fn step(&mut self, touch: Option<TouchEvent>) -> (r: FrameInput)
        ensures
            *final(self) == next_state(*old(self), touch),
            r == frame_input(*old(self), touch),
    {
        if let Some(t) = touch {
            match t.phase {
                TouchPhase::Started => {
                    self.start = Some(Point { x: t.x, y: t.y });
                },
                TouchPhase::Ended | TouchPhase::Cancelled => {
                    self.start = None;
                },
                _ => {},
            }
            if let Some(s) = self.start {
                if let Some(c) = classify_drag(s.x, s.y, t.x, t.y) {
                    let flags = DirectionFlags {
                        up: c.direction == Direction::Up,
                        down: c.direction == Direction::Down,
                        left: c.direction == Direction::Left,
                        right: c.direction == Direction::Right,
                    };
                    return FrameInput { flags, feedback: Some(c) };
                }
            }
        }
        FrameInput { flags: DirectionFlags { up: false, down: false, left: false, right: false }, feedback: None }
    }
}

} // verus!
