//! Gesture data model and direction classification.
//!
//! Motion samples arrive as integer thousandths of the platform's native
//! units: `dx`/`dy` are motion deltas per update sample, `angle_delta` is
//! millidegrees of rotation since the previous sample, and `scale` is a
//! ratio in thousandths relative to the gesture start (`1000` = no change).

use vstd::prelude::*;

verus! {

/// Scale ratio, in thousandths, meaning "no change since gesture start".
pub const SCALE_ONE: i64 = 1000;

/// Rotation threshold, in millidegrees: a pinch update whose angle delta
/// exceeds this magnitude is classified as a rotation rather than a pinch.
pub const PINCH_ROTATION_THRESHOLD: i64 = 5000;

/// Discrete direction of a swipe gesture. `Any` matches every direction.
#[derive(Clone, Copy, Debug, PartialEq, Eq, Structural)]
pub enum SwipeDir {
    Any,
    Up,
    Down,
    Left,
    Right,
}

/// Discrete direction of a pinch gesture. `Any` matches every direction.
#[derive(Clone, Copy, Debug, PartialEq, Eq, Structural)]
pub enum PinchDir {
    Any,
    In,
    Out,
    Clockwise,
    CounterClockwise,
}

/// Magnitude of `v` as a mathematical integer.
pub open spec fn abs(v: int) -> int {
    if v < 0 {
        -v
    } else {
        v
    }
}

/// Direction a swipe sample classifies to: the axis with the larger
/// magnitude wins, ties prefer the horizontal axis, and the sign picks
/// the concrete value (positive `dx` is right, positive `dy` is down).
pub open spec fn spec_swipe_dir(dx: int, dy: int) -> SwipeDir {
    if abs(dx) >= abs(dy) {
        if dx >= 0 {
            SwipeDir::Right
        } else {
            SwipeDir::Left
        }
    } else {
        if dy >= 0 {
            SwipeDir::Down
        } else {
            SwipeDir::Up
        }
    }
}

/// Direction a pinch sample classifies to: a rotation beyond the threshold
/// wins (positive is clockwise), otherwise a shrinking scale is `In` and a
/// growing one is `Out`.
pub open spec fn spec_pinch_dir(scale: int, angle_delta: int) -> PinchDir {
    if angle_delta > PINCH_ROTATION_THRESHOLD as int {
        PinchDir::Clockwise
    } else if angle_delta < -(PINCH_ROTATION_THRESHOLD as int) {
        PinchDir::CounterClockwise
    } else if scale < SCALE_ONE as int {
        PinchDir::In
    } else {
        PinchDir::Out
    }
}

/// Magnitude of `v`, exact even at the smallest representable value.
pub fn abs_mag(v: i64) -> (m: u64)
    ensures
        m as int == abs(v as int),
{
    if v == i64::MIN {
        9223372036854775808u64
    } else if v < 0 {
        (-v) as u64
    } else {
        v as u64
    }
}

impl SwipeDir {
    /// Classifies one swipe motion sample (thousandths of a unit).
    pub fn dir(dx: i64, dy: i64) -> (d: SwipeDir)
        ensures
            d == spec_swipe_dir(dx as int, dy as int),
    {
        let ax = abs_mag(dx);
        let ay = abs_mag(dy);
        if ax >= ay {
            if dx >= 0 {
                SwipeDir::Right
            } else {
                SwipeDir::Left
            }
        } else {
            if dy >= 0 {
                SwipeDir::Down
            } else {
                SwipeDir::Up
            }
        }
    }
}

impl PinchDir {
    /// Classifies one pinch motion sample (`scale` and `angle_delta` in
    /// thousandths).
    pub fn dir(scale: i64, angle_delta: i64) -> (d: PinchDir)
        ensures
            d == spec_pinch_dir(scale as int, angle_delta as int),
    {
        if angle_delta > PINCH_ROTATION_THRESHOLD {
            PinchDir::Clockwise
        } else if angle_delta < -PINCH_ROTATION_THRESHOLD {
            PinchDir::CounterClockwise
        } else if scale < SCALE_ONE {
            PinchDir::In
        } else {
            PinchDir::Out
        }
    }
}

/// The gesture currently being tracked. Exactly one lives in the tracker;
/// every Begin or Update replaces it wholesale.
#[derive(Clone, Copy, Debug, PartialEq, Eq, Structural)]
pub enum ActiveGesture {
    Idle,
    Hold { fingers: u32 },
    Pinch { fingers: u32, direction: PinchDir },
    Swipe { fingers: u32, direction: SwipeDir },
}

/// A configured gesture-to-command binding. Templates are command strings
/// with optional placeholders; an absent template means "no dispatch for
/// that phase". Delays are milliseconds.
#[derive(Clone, Debug)]
pub enum Binding {
    Hold {
        fingers: u32,
        action: Option<String>,
    },
    Pinch {
        fingers: u32,
        direction: PinchDir,
        start: Option<String>,
        update: Option<String>,
        end: Option<String>,
    },
    Swipe {
        fingers: u32,
        direction: SwipeDir,
        start: Option<String>,
        update: Option<String>,
        end: Option<String>,
        allow_continue_delay: Option<u32>,
        include_cancelled: Option<bool>,
    },
}

/// Read-mostly table of configured bindings, loaded once at startup.
#[derive(Clone, Debug)]
pub struct BindingStore {
    pub gestures: Vec<Binding>,
}

/// One decoded inbound notification from the device layer. `Other` is any
/// dispatched event that is not a gesture.
#[derive(Clone, Copy, Debug, PartialEq, Eq, Structural)]
pub enum InputEvent {
    HoldBegin { fingers: u32 },
    HoldEnd { cancelled: bool },
    PinchBegin { fingers: u32 },
    PinchUpdate { scale: i64, angle_delta: i64 },
    PinchEnd { cancelled: bool },
    SwipeBegin { fingers: u32 },
    SwipeUpdate { dx: i64, dy: i64 },
    SwipeEnd { cancelled: bool },
    Other,
}

} // verus!
