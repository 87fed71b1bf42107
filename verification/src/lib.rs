//! A text-mode raycaster: a grid of solid and empty cells is projected into a
//! first-person view by casting one ray per screen column and shading each
//! column by the distance at which its ray stops.
//!
//! Every quantity is an integer. Positions and directions are fixed-point
//! numbers with [`params::UNITS_PER_CELL`] units to a map cell, angles are in
//! microradians, and distances are counted in marching steps of a tenth of a
//! cell. The sine and the cosine of an angle are the caller's to compute: the
//! library hands out the angle of each column's ray and takes the rays'
//! directions.
//!
//! - [`params`]: the tunables.
//! - [`fixed`]: rounding and saturation.
//! - [`space`], [`grid`]: the cells and the map.
//! - [`camera`], [`input`]: the player, and what keys do to them.
//! - [`ray`]: the angles of the rays, the march of a ray, and what holds of
//!   the distances.
//! - [`shade`]: from a distance to rows and glyphs.
//! - [`screen`], [`terminal`]: the screen buffer, and the text that draws it
//!   on a terminal.

pub mod params;
pub mod fixed;
pub mod space;
pub mod grid;
pub mod camera;
pub mod input;
pub mod ray;
pub mod shade;
pub mod screen;
pub mod terminal;
