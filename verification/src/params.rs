//! The tunables of the renderer.

use vstd::prelude::*;

verus! {

/// Number of cells in one line of the map.
pub const MAP_WIDTH: usize = 16;

/// Number of lines of the map.
pub const MAP_HEIGHT: usize = 16;

/// Fixed-point scale: a position of `UNITS_PER_CELL` is one cell away from
/// the origin, and a direction component of `UNITS_PER_CELL` is 1.
pub const UNITS_PER_CELL: i64 = 1_000_000;

/// A ray advances by one cell in this many marching steps.
pub const STEPS_PER_CELL: i64 = 10;

/// The maximum rendering depth, in marching steps: 16 cells.
pub const MAX_DEPTH_STEPS: u32 = 160;

/// The field of view, in microradians (a seventh of a full turn).
pub const FOV: i64 = 897_598;

/// Microseconds in a second.
pub const MICROS_PER_SECOND: i64 = 1_000_000;

/// Distance covered per second of movement, in position units.
pub const MOVE_SPEED: i64 = 1_000_000;

/// Change of heading per turn command, in microradians.
pub const TURN_INCREMENT: i64 = 100_000;

/// Pause between two frames, in nanoseconds.
pub const FRAME_DELAY_NANOS: u32 = 7_000_000;

} // verus!
