//! The camera: where the player stands and which way they look.

use vstd::prelude::*;

verus! {

/// Position and heading of the player. `x` counts along a line of the map
/// and `y` across the lines, both in fixed-point units of which
/// `UNITS_PER_CELL` make one cell; the position may lie outside the map.
/// `angle` is the heading in microradians, without bounds: at angle 0 the
/// player looks toward growing `y`.
#[derive(Clone, Copy, Debug, PartialEq, Eq, Structural)]
pub struct PlayerCamera {
    pub x: i64,
    pub y: i64,
    pub angle: i64,
}

impl Default for PlayerCamera {
    fn default() -> (camera: Self)
        ensures
            camera == (PlayerCamera { x: 0, y: 0, angle: 0 }),
    {
        PlayerCamera { x: 0, y: 0, angle: 0 }
    }
}

} // verus!
