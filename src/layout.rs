use vstd::prelude::*;

verus! {

// Lengths are in micro-pixels: one pixel is 1_000_000 units.
/// Units of length in one pixel.
pub const PIXEL: i64 = 1_000_000;

/// Width of the window.
pub const WINDOW_WIDTH: i64 = 1024 * PIXEL;

/// Height of the window.
pub const WINDOW_HEIGHT: i64 = 720 * PIXEL;

/// Vertical coordinate of the window's bottom edge (the origin is its centre).
pub const WINDOW_BOTTOM_Y: i64 = -360 * PIXEL;

/// Horizontal coordinate of the window's left edge.
pub const WINDOW_LEFT_X: i64 = -512 * PIXEL;

/// Thickness of the floor along the window's bottom edge.
pub const FLOOR_THICKNESS: i64 = 10 * PIXEL;

/// An axis-aligned rectangle given by its centre and its size.
#[derive(Clone, Copy, Debug, PartialEq, Eq, Structural)]
pub struct Placement {
    pub x: i64,
    pub y: i64,
    pub width: i64,
    pub height: i64,
}

/// Half of `v`, rounded toward zero, as integer division in Rust rounds.
pub open spec fn half(v: int) -> int {
    if v >= 0 {
        v / 2
    } else {
        -((-v) / 2)
    }
}

/// Where the floor lies: across the whole window, resting on its bottom edge.
pub open spec fn floor_spec() -> Placement {
    Placement {
        x: 0,
        y: (WINDOW_BOTTOM_Y + FLOOR_THICKNESS / 2) as i64,
        width: WINDOW_WIDTH,
        height: FLOOR_THICKNESS,
    }
}

/// The floor's rectangle.
pub fn floor_placement() -> (r: Placement)
    ensures
        r == floor_spec(),
{
    Placement {
        x: 0,
        y: WINDOW_BOTTOM_Y + FLOOR_THICKNESS / 2,
        width: WINDOW_WIDTH,
        height: FLOOR_THICKNESS,
    }
}

} // verus!
