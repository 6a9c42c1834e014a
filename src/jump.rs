use vstd::prelude::*;

use crate::layout::PIXEL;
use crate::motion::{kept_x, with_y, Translation};

verus! {

/// Highest a jump carries the player above where it started.
pub const MAX_JUMP_HEIGHT: i64 = 230 * PIXEL;

/// Rising speed, in micro-pixels per microsecond (pixels per second).
pub const PLAYER_VELOCITY_Y: i64 = 400;

/// The falling speed is the rising speed divided by this ratio (5/4, that is 1.25):
/// its numerator.
pub const FALL_DIVIDER_NUMER: i64 = 5;

/// Denominator of the fall divider.
pub const FALL_DIVIDER_DENOM: i64 = 4;

/// How far a jump has carried the player so far; present only while it rises.
#[derive(Clone, Copy, Debug, PartialEq, Eq, Structural)]
pub struct Jump(pub i64);

impl Jump {
    /// A jump has risen by no less than nothing and no more than the maximum height.
    pub open spec fn wf(self) -> bool {
        0 <= self.0 <= MAX_JUMP_HEIGHT
    }
}

/// Distance risen in `delta_us` microseconds at full rising speed.
pub open spec fn rise_distance(delta_us: int) -> int {
    delta_us * PLAYER_VELOCITY_Y
}

/// Distance fallen in `delta_us` microseconds.
pub open spec fn fall_distance(delta_us: int) -> int {
    delta_us * PLAYER_VELOCITY_Y * FALL_DIVIDER_DENOM / (FALL_DIVIDER_NUMER as int)
}

/// Whether a frame that starts a jump at `height` and lasts `delta_us` reaches
/// the top.
pub open spec fn reaches_top(height: int, delta_us: int) -> bool {
    height + rise_distance(delta_us) >= MAX_JUMP_HEIGHT
}

/// How far the player rises in one frame of a jump at `height`: the full distance,
/// cut short at the maximum height.
pub open spec fn rise_step(height: int, delta_us: int) -> int {
    if reaches_top(height, delta_us) {
        MAX_JUMP_HEIGHT - height
    } else {
        rise_distance(delta_us)
    }
}

/// Starts a jump when the up key is held, the player stands on the ground and is
/// not jumping already; otherwise nothing starts.
pub fn jump(up_pressed: bool, grounded: bool, jumping: bool) -> (r: Option<Jump>)
    ensures
        r == (if up_pressed && grounded && !jumping {
            Some(Jump(0))
        } else {
            None
        }),
{
    if up_pressed && grounded && !jumping {
        Some(Jump(0))
    } else {
        None
    }
}

/// Moves a rising player up for one frame of `delta_us` microseconds. The move is
/// cut short so that the jump never goes past its maximum height; the jump ends
/// (`None`) when it reaches that height, and otherwise goes on with the new height.
/// The horizontal part of the pending request is kept.
pub fn rise(jump: Jump, delta_us: u32, current: Option<Translation>) -> (r: (
    Translation,
    Option<Jump>,
))
    requires
        jump.wf(),
    ensures
        r.0.x == kept_x(current),
        r.0.y == rise_step(jump.0 as int, delta_us as int),
        r.1 == (if reaches_top(jump.0 as int, delta_us as int) {
            None
        } else {
            Some(Jump((jump.0 + rise_distance(delta_us as int)) as i64))
        }),
        r.1 matches Some(j) ==> j.wf(),
{
    let step: i64 = delta_us as i64 * PLAYER_VELOCITY_Y;
    if step >= MAX_JUMP_HEIGHT - jump.0 {
        let movement: i64 = MAX_JUMP_HEIGHT - jump.0;
        (with_y(current, movement), None)
    } else {
        (with_y(current, step), Some(Jump(jump.0 + step)))
    }
}

/// Moves a player who is not rising down for one frame of `delta_us`
/// microseconds, more slowly than it rises. The horizontal part of the pending
/// request is kept.
pub fn fall(delta_us: u32, current: Option<Translation>) -> (r: Translation)
    ensures
        r.x == kept_x(current),
        r.y == -fall_distance(delta_us as int),
{
    let d: i64 = delta_us as i64;
    assert((d as int) * 400 * 4 / 5 == d * 320) by (nonlinear_arith);
    let movement: i64 = -(d * 320);
    with_y(current, movement)
}

/// A rising player never goes past the maximum height: from any height within
/// it, one frame of any length leaves the jump within it, and the step taken is
/// never downward.
pub proof fn lemma_rise_stays_below_max(height: int, delta_us: int)
    requires
        0 <= height <= MAX_JUMP_HEIGHT,
        0 <= delta_us,
    ensures
        0 <= rise_step(height, delta_us),
        height + rise_step(height, delta_us) <= MAX_JUMP_HEIGHT,
{
    assert(rise_distance(delta_us) >= 0) by (nonlinear_arith)
        requires
            0 <= delta_us,
    ;
}

/// The falling speed is the rising speed divided by the fall divider: over any
/// frame the distance fallen, times 5/4, is the distance a rise would cover.
pub proof fn lemma_fall_speed(delta_us: int)
    ensures
        fall_distance(delta_us) * FALL_DIVIDER_NUMER == rise_distance(delta_us)
            * FALL_DIVIDER_DENOM,
{
    assert(delta_us * 400 * 4 / 5 == delta_us * 320) by (nonlinear_arith);
}

} // verus!
