//! Ground-plane direction chosen by the four movement keys.
use vstd::prelude::*;

verus! {

/// The four movement keys, each held down or not during a frame.
#[derive(Clone, Copy, Debug, PartialEq, Eq, Structural)]
pub struct MoveKeys {
    pub forward: bool,
    pub back: bool,
    pub right: bool,
    pub left: bool,
}

/// What one key adds to its axis: one unit while it is held.
pub open spec fn held(b: bool) -> int {
    if b {
        1
    } else {
        0
    }
}

/// A direction on the ground plane, one unit at most along each axis:
/// `x` runs to the right, `y` forward.
#[derive(Clone, Copy, Debug, PartialEq, Eq, Structural)]
pub struct MoveAxes {
    pub x: i8,
    pub y: i8,
}

impl MoveAxes {
    /// Each axis is within one unit of zero.
    pub open spec fn wf(self) -> bool {
        -1 <= self.x <= 1 && -1 <= self.y <= 1
    }

    /// The direction that the held keys ask for: forward adds one to `y` and
    /// back takes one away; right adds one to `x` and left takes one away.
    /// Opposite keys held together cancel.
    pub fn from_keys(keys: MoveKeys) -> (r: MoveAxes)
        ensures
            r.x == held(keys.right) - held(keys.left),
            r.y == held(keys.forward) - held(keys.back),
            r.wf(),
    {
        let mut x: i8 = 0;
        let mut y: i8 = 0;
        if keys.forward {
            y = y + 1;
        }
        if keys.back {
            y = y - 1;
        }
        if keys.right {
            x = x + 1;
        }
        if keys.left {
            x = x - 1;
        }
        MoveAxes { x, y }
    }
}

} // verus!
