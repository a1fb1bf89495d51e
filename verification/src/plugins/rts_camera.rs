//! The camera's keyboard panning: which way the arrow keys point.
use vstd::prelude::*;

verus! {

/// One axis of the arrow keys: -1 for the negative key alone, 1 for the
/// positive key alone, 0 for both or neither.
pub open spec fn axis(negative: bool, positive: bool) -> int {
    (if positive { 1int } else { 0int }) - (if negative { 1int } else { 0int })
}

/// The direction (x, y) in which the held arrow keys move the camera, before
/// it is scaled to the camera's speed: left and right on x, down and up on y.
pub fn movement_direction(left: bool, right: bool, up: bool, down: bool) -> (direction: (i32, i32))
    ensures
        direction.0 == axis(left, right),
        direction.1 == axis(down, up),
{
    let mut x: i32 = 0;
    let mut y: i32 = 0;
    if left {
        x = x - 1;
    }
    if right {
        x = x + 1;
    }
    if up {
        y = y + 1;
    }
    if down {
        y = y - 1;
    }
    (x, y)
}

/// Opposite keys cancel, and each component of a direction is -1, 0 or 1.
pub proof fn lemma_axis_cancels(negative: bool, positive: bool)
    ensures
        axis(true, true) == 0,
        axis(false, false) == 0,
        -1 <= axis(negative, positive) <= 1,
        axis(negative, positive) == -axis(positive, negative),
        axis(false, true) == 1,
        axis(true, false) == -1,
{
}

} // verus!
