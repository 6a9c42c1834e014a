use vstd::prelude::*;

use crate::direction::Direction;
use crate::layout::{Placement, PIXEL, WINDOW_BOTTOM_Y, WINDOW_LEFT_X};

verus! {

/// Columns of tiles in the player's sprite sheet.
pub const SPRITESHEET_COLS: usize = 7;

/// Rows of tiles in the player's sprite sheet.
pub const SPRITESHEET_ROWS: usize = 8;

/// Width of one tile of the sprite sheet, in image pixels.
pub const SPRITE_TILE_WIDTH: i64 = 128;

/// Height of one tile of the sprite sheet, in image pixels.
pub const SPRITE_TILE_HEIGHT: i64 = 256;

/// Width the player is drawn at, in screen pixels.
pub const SPRITE_RENDER_WIDTH: i64 = 64;

/// Height the player is drawn at, in screen pixels.
pub const SPRITE_RENDER_HEIGHT: i64 = 128;

/// Tile shown while the player stands still.
pub const SPRITE_IDX_STAND: usize = 6;

/// Tile shown while the player is in the air.
pub const SPRITE_IDX_JUMP: usize = 13;

/// First tile of the walking cycle.
pub const SPRITE_IDX_WALK_FIRST: usize = 47;

/// Second tile of the walking cycle.
pub const SPRITE_IDX_WALK_SECOND: usize = 40;

/// Time each tile of the walking cycle is shown, in milliseconds.
pub const CYCLE_DELAY_MS: u64 = 70;

/// What the character controller reports of the last frame.
#[derive(Clone, Copy, Debug, PartialEq, Eq, Structural)]
pub struct ControllerOutput {
    /// Horizontal part of the translation that was asked for.
    pub dx: i64,
    /// Whether the player stands on something.
    pub grounded: bool,
}

/// How the player is drawn: the tile shown, whether the walking cycle runs,
/// and whether the tile is mirrored.
#[derive(Clone, Copy, Debug, PartialEq, Eq, Structural)]
pub struct SpriteState {
    pub index: usize,
    pub walking: bool,
    pub flip_x: bool,
}

/// The walking cycle starts when the player moves along the ground and it does
/// not run already; otherwise nothing changes.
pub open spec fn movement_animation_spec(s: SpriteState, out: ControllerOutput) -> SpriteState {
    if !s.walking && out.dx != 0 && out.grounded {
        SpriteState { walking: true, ..s }
    } else {
        s
    }
}

/// A player standing still on the ground shows the standing tile, with no cycle.
pub open spec fn idle_sprite_spec(s: SpriteState, out: ControllerOutput) -> SpriteState {
    if out.dx == 0 && out.grounded {
        SpriteState { index: SPRITE_IDX_STAND, walking: false, ..s }
    } else {
        s
    }
}

/// A player in the air shows the jumping tile, with no cycle.
pub open spec fn jump_sprite_spec(s: SpriteState, out: ControllerOutput) -> SpriteState {
    if !out.grounded {
        SpriteState { index: SPRITE_IDX_JUMP, walking: false, ..s }
    } else {
        s
    }
}

/// The tile is mirrored exactly when the player faces left.
pub open spec fn sprite_direction_spec(s: SpriteState, direction: Direction) -> SpriteState {
    SpriteState { flip_x: direction == Direction::Left, ..s }
}

/// The tiles of the walking cycle, in the order they are shown.
pub open spec fn walk_cycle_spec() -> Seq<usize> {
    seq![SPRITE_IDX_WALK_FIRST, SPRITE_IDX_WALK_SECOND]
}

/// The tiles of the walking cycle, in the order they are shown.
pub fn walk_cycle() -> (r: Vec<usize>)
    ensures
        r@ == walk_cycle_spec(),
{
    let r: Vec<usize> = vec![SPRITE_IDX_WALK_FIRST, SPRITE_IDX_WALK_SECOND];
    assert(r@ =~= walk_cycle_spec());
    r
}

impl SpriteState {
    /// The player as it first appears: standing, facing right.
    pub fn initial() -> (r: SpriteState)
        ensures
            r == (SpriteState { index: SPRITE_IDX_STAND, walking: false, flip_x: false }),
    {
        SpriteState { index: SPRITE_IDX_STAND, walking: false, flip_x: false }
    }

    /// Starts the walking cycle when the player moves along the ground.
    pub fn apply_movement_animation(&mut self, out: ControllerOutput)
        ensures
            *final(self) == movement_animation_spec(*old(self), out),
    {
        if !self.walking && out.dx != 0 && out.grounded {
            self.walking = true;
        }
    }

    /// Stops the cycle and shows the standing tile when the player stands still
    /// on the ground.
    pub fn apply_idle_sprite(&mut self, out: ControllerOutput)
        ensures
            *final(self) == idle_sprite_spec(*old(self), out),
    {
        if out.dx == 0 && out.grounded {
            self.walking = false;
            self.index = SPRITE_IDX_STAND;
        }
    }

    /// Stops the cycle and shows the jumping tile when the player is in the air.
    pub fn apply_jump_sprite(&mut self, out: ControllerOutput)
        ensures
            *final(self) == jump_sprite_spec(*old(self), out),
    {
        if !out.grounded {
            self.walking = false;
            self.index = SPRITE_IDX_JUMP;
        }
    }

    /// Mirrors the tile when the player faces left.
    pub fn update_sprite_direction(&mut self, direction: Direction)
        ensures
            *final(self) == sprite_direction_spec(*old(self), direction),
    {
        match direction {
            Direction::Right => self.flip_x = false,
            Direction::Left => self.flip_x = true,
        }
    }
}

/// The standing tile is shown only while the player is on the ground and does
/// not move sideways: starting from any other tile, none of the sprite updates
/// of a frame brings the standing tile except the idle one, and that one only
/// in that case.
pub proof fn lemma_idle_only_when_still(
    s: SpriteState,
    out: ControllerOutput,
    direction: Direction,
)
    requires
        s.index != SPRITE_IDX_STAND,
    ensures
        movement_animation_spec(s, out).index != SPRITE_IDX_STAND,
        jump_sprite_spec(s, out).index != SPRITE_IDX_STAND,
        sprite_direction_spec(s, direction).index != SPRITE_IDX_STAND,
        idle_sprite_spec(s, out).index == SPRITE_IDX_STAND <==> (out.dx == 0 && out.grounded),
{
}

/// Where the player first appears: 100 pixels right of the window's left edge,
/// 300 pixels above its bottom edge, at its drawn size.
pub open spec fn player_start_spec() -> Placement {
    Placement {
        x: (WINDOW_LEFT_X + 100 * PIXEL) as i64,
        y: (WINDOW_BOTTOM_Y + 300 * PIXEL) as i64,
        width: (SPRITE_RENDER_WIDTH * PIXEL) as i64,
        height: (SPRITE_RENDER_HEIGHT * PIXEL) as i64,
    }
}

/// Where the player first appears.
pub fn player_start() -> (r: Placement)
    ensures
        r == player_start_spec(),
{
    Placement {
        x: WINDOW_LEFT_X + 100 * PIXEL,
        y: WINDOW_BOTTOM_Y + 300 * PIXEL,
        width: SPRITE_RENDER_WIDTH * PIXEL,
        height: SPRITE_RENDER_HEIGHT * PIXEL,
    }
}

} // verus!
