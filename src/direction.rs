use vstd::prelude::*;

verus! {

/// The way the player faces.
#[derive(Clone, Copy, Debug, PartialEq, Eq, Structural)]
pub enum Direction {
    Left,
    Right,
}

/// The direction to record for a frame whose horizontal translation is `dx`:
/// `Some` of the new facing when the player moves, `None` (keep the current one)
/// when it stands still.
pub open spec fn direction_for(dx: int) -> Option<Direction> {
    if dx > 0 {
        Some(Direction::Right)
    } else if dx < 0 {
        Some(Direction::Left)
    } else {
        None
    }
}

/// Decides which direction the player faces after a frame that moved it by `dx`
/// horizontally: right for a positive move, left for a negative one, and no
/// change when it did not move.
pub fn update_direction(dx: i64) -> (r: Option<Direction>)
    ensures
        r == direction_for(dx as int),
{
    if dx > 0 {
        Some(Direction::Right)
    } else if dx < 0 {
        Some(Direction::Left)
    } else {
        None
    }
}

} // verus!
