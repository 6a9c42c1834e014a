use vstd::prelude::*;

use crate::layout::{half, Placement, FLOOR_THICKNESS, PIXEL, WINDOW_BOTTOM_Y};

verus! {

/// A fixed platform standing on the floor.
#[derive(Clone, Copy, Debug, PartialEq, Eq, Structural)]
pub struct PlatformBundle {
    pub placement: Placement,
}

/// The vertical centre of a platform of the given height that stands on the floor.
pub open spec fn platform_center_y(height: int) -> int {
    WINDOW_BOTTOM_Y + half(height) + FLOOR_THICKNESS
}

impl PlatformBundle {
    /// A platform centred at `x` horizontally, of the given size, whose bottom
    /// rests on the top of the floor.
    pub fn new(x: i64, width: i64, height: i64) -> (r: PlatformBundle)
        ensures
            r.placement.x == x,
            r.placement.y == platform_center_y(height as int),
            r.placement.width == width,
            r.placement.height == height,
    {
        PlatformBundle {
            placement: Placement {
                x,
                y: WINDOW_BOTTOM_Y + height / 2 + FLOOR_THICKNESS,
                width,
                height,
            },
        }
    }
}

/// The platforms of the level, as (centre x, width, height) in pixels.
pub open spec fn level_platforms() -> Seq<(int, int, int)> {
    seq![(-100, 75, 200), (100, 50, 350), (350, 150, 250)]
}

/// The platforms placed when the level starts, left to right.
pub fn platforms() -> (r: Vec<PlatformBundle>)
    ensures
        r@.len() == level_platforms().len(),
        forall|i: int|
            0 <= i < r@.len() ==> {
                let (x, w, h) = #[trigger] level_platforms()[i];
                r@[i] == PlatformBundle {
                    placement: Placement {
                        x: (x * PIXEL) as i64,
                        y: platform_center_y(h * PIXEL) as i64,
                        width: (w * PIXEL) as i64,
                        height: (h * PIXEL) as i64,
                    },
                }
            },
{
    let mut r: Vec<PlatformBundle> = Vec::new();
    r.push(PlatformBundle::new(-100 * PIXEL, 75 * PIXEL, 200 * PIXEL));
    r.push(PlatformBundle::new(100 * PIXEL, 50 * PIXEL, 350 * PIXEL));
    r.push(PlatformBundle::new(350 * PIXEL, 150 * PIXEL, 250 * PIXEL));
    proof {
        assert(level_platforms()[0] == (-100int, 75int, 200int));
        assert(level_platforms()[1] == (100int, 50int, 350int));
        assert(level_platforms()[2] == (350int, 150int, 250int));
    }
    r
}

} // verus!
