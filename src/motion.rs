use vstd::prelude::*;

use crate::direction::{direction_for, Direction};

verus! {

/// Horizontal speed of the player, in micro-pixels per microsecond (pixels per second).
pub const PLAYER_VELOCITY_X: i64 = 200;

/// The translation that the character controller is asked to make in one frame.
#[derive(Clone, Copy, Debug, PartialEq, Eq, Structural)]
pub struct Translation {
    pub x: i64,
    pub y: i64,
}

/// The horizontal part of a pending request, or zero when there is none.
pub open spec fn kept_x(current: Option<Translation>) -> int {
    match current {
        Some(t) => t.x as int,
        None => 0,
    }
}

/// The vertical part of a pending request, or zero when there is none.
pub open spec fn kept_y(current: Option<Translation>) -> int {
    match current {
        Some(t) => t.y as int,
        None => 0,
    }
}

/// Sets the horizontal part of a request, keeping its vertical part.
pub fn with_x(current: Option<Translation>, x: i64) -> (r: Translation)
    ensures
        r.x == x,
        r.y == kept_y(current),
{
    match current {
        Some(t) => Translation { x, y: t.y },
        None => Translation { x, y: 0 },
    }
}

/// Sets the vertical part of a request, keeping its horizontal part.
pub fn with_y(current: Option<Translation>, y: i64) -> (r: Translation)
    ensures
        r.x == kept_x(current),
        r.y == y,
{
    match current {
        Some(t) => Translation { x: t.x, y },
        None => Translation { x: 0, y },
    }
}

/// Horizontal distance covered in `delta_us` microseconds: rightward when the
/// right key is held, leftward when the left key is, nothing when both or neither are.
pub open spec fn horizontal_step(right: bool, left: bool, delta_us: int) -> int {
    (if right { delta_us * PLAYER_VELOCITY_X } else { 0 }) - (if left {
        delta_us * PLAYER_VELOCITY_X
    } else {
        0
    })
}

/// Requests this frame's horizontal move from the arrow keys held, keeping
/// the vertical part of the pending request.
pub fn movement(right: bool, left: bool, delta_us: u32, current: Option<Translation>) -> (r:
    Translation)
    ensures
        r.x == horizontal_step(right, left, delta_us as int),
        r.y == kept_y(current),
{
    let step: i64 = delta_us as i64 * PLAYER_VELOCITY_X;
    let mut dx: i64 = 0;
    if right {
        dx = dx + step;
    }
    if left {
        dx = dx - step;
    }
    with_x(current, dx)
}

/// The direction follows the keys: over a frame of any nonzero length, holding
/// only the right key turns the player right, holding only the left key turns it
/// left, and holding both or neither leaves the direction as it was.
pub proof fn lemma_direction_follows_keys(right: bool, left: bool, delta_us: int)
    requires
        delta_us > 0,
    ensures
        direction_for(horizontal_step(right, left, delta_us)) == (if right && !left {
            Some(Direction::Right)
        } else if left && !right {
            Some(Direction::Left)
        } else {
            None
        }),
{
    assert(delta_us * PLAYER_VELOCITY_X > 0) by (nonlinear_arith)
        requires
            delta_us > 0,
    ;
}

} // verus!
