//! Projection and shading: from the distance of a column's wall to the rows
//! that the wall covers, and from distance and row to a glyph.

use vstd::prelude::*;
use crate::params::{MAX_DEPTH_STEPS, STEPS_PER_CELL};

verus! {

/// The last row of sky in a column whose wall is `distance` steps away, on
/// a screen of `screen_height` rows: with `d = distance / STEPS_PER_CELL`
/// the distance in cells, the greatest whole number that is at most
/// `screen_height / 2 - screen_height / d`, and 0 where that is negative or
/// the distance is 0.
pub open spec fn ceiling_of(distance: int, screen_height: int) -> int {
    if distance <= 2 * STEPS_PER_CELL {
        0
    } else {
        (screen_height * (distance - 2 * STEPS_PER_CELL)) / (2 * distance)
    }
}

/// The last row of wall in that column: as far from the bottom of the
/// screen as the ceiling is from the top, and never negative.
pub open spec fn floor_of(distance: int, screen_height: int) -> int {
    let below = screen_height - ceiling_of(distance, screen_height);
    if below < 0 {
        0
    } else {
        below
    }
}

/// The glyph of a wall at `distance` steps: denser the nearer, in four
/// bands that end at a quarter, a third, a half and the whole of the
/// maximum depth, and blank from there on.
pub open spec fn wall_glyph(distance: int) -> char {
    if 4 * distance < MAX_DEPTH_STEPS {
        '\u{2588}'
    } else if 3 * distance < MAX_DEPTH_STEPS {
        '\u{2593}'
    } else if 2 * distance < MAX_DEPTH_STEPS {
        '\u{2592}'
    } else if distance < MAX_DEPTH_STEPS {
        '\u{2591}'
    } else {
        ' '
    }
}

/// Row `y` of a screen of `screen_height` rows has a brightness below
/// `p / q`, for positive `q`. The brightness of a row is
/// `1 - (y - screen_height / 2) / (screen_height / 2)`, which is
/// `2 * (screen_height - y) / screen_height`.
pub open spec fn dimmer_than(y: int, screen_height: int, p: int, q: int) -> bool {
    2 * (screen_height - y) * q < p * screen_height
}

/// The glyph of the floor in row `y`: denser the lower the row, in bands
/// that end at the brightnesses 0.25, 0.5, 0.65, 0.75, 0.8 and 0.9, and
/// blank from there on.
pub open spec fn floor_glyph(y: int, screen_height: int) -> char {
    if dimmer_than(y, screen_height, 1, 4) {
        '#'
    } else if dimmer_than(y, screen_height, 1, 2) {
        'x'
    } else if dimmer_than(y, screen_height, 13, 20) {
        ','
    } else if dimmer_than(y, screen_height, 3, 4) {
        '.'
    } else if dimmer_than(y, screen_height, 4, 5) {
        '_'
    } else if dimmer_than(y, screen_height, 9, 10) {
        '-'
    } else {
        ' '
    }
}

/// The glyph in row `y` of a column whose wall is `distance` steps away:
/// sky down to the ceiling row, wall down to the floor row, floor below.
pub open spec fn column_glyph(distance: int, y: int, screen_height: int) -> char {
    if y <= ceiling_of(distance, screen_height) {
        ' '
    } else if y <= floor_of(distance, screen_height) {
        wall_glyph(distance)
    } else {
        floor_glyph(y, screen_height)
    }
}

/// The ceiling row is the greatest whole number that is at most
/// `screen_height * (distance - 2 * STEPS_PER_CELL) / (2 * distance)`, the
/// height of the sky over a wall that is further than two cells away, and
/// never lies below the middle of the screen.
pub proof fn lemma_ceiling_is_floor_of_quotient(distance: int, screen_height: int)
    requires
        0 <= screen_height,
        2 * STEPS_PER_CELL < distance,
    ensures
        2 * distance * ceiling_of(distance, screen_height) <= screen_height * (distance - 2
            * STEPS_PER_CELL) < 2 * distance * (ceiling_of(distance, screen_height) + 1),
        0 <= 2 * ceiling_of(distance, screen_height) <= screen_height,
{
    let num = screen_height * (distance - 2 * STEPS_PER_CELL);
    let den = 2 * distance;
    let c = ceiling_of(distance, screen_height);
    assert(STEPS_PER_CELL == 10);
    assert(c == num / den);
    vstd::arithmetic::div_mod::lemma_fundamental_div_mod(num, den);
    vstd::arithmetic::div_mod::lemma_mod_bound(num, den);
    assert(den * c <= num < den * c + den);
    assert(den * (c + 1) == den * c + den) by (nonlinear_arith);
    assert(0 <= num <= screen_height * distance) by (nonlinear_arith)
        requires
            num == screen_height * (distance - 20),
            0 <= screen_height,
            20 < distance,
    ;
    assert(0 <= 2 * c <= screen_height) by (nonlinear_arith)
        requires
            den * c <= num < den * c + den,
            0 <= num <= screen_height * distance,
            den == 2 * distance,
            20 < distance,
            0 <= screen_height,
    ;
}

/// Projection has no hidden state: two results for one distance and one
/// screen height, each as `get_ceiling_and_floor_heights_from_distance`
/// promises it, are the same.
pub proof fn lemma_projection_is_deterministic(
    distance: u32,
    screen_height: usize,
    first: (usize, usize),
    second: (usize, usize),
)
    requires
        first.0 == ceiling_of(distance as int, screen_height as int),
        first.1 == floor_of(distance as int, screen_height as int),
        second.0 == ceiling_of(distance as int, screen_height as int),
        second.1 == floor_of(distance as int, screen_height as int),
    ensures
        first == second,
{
}

/// Projects a distance onto a screen: returns the last row of sky and the
/// last row of wall of a column whose wall is `distance` steps away. The
/// rows depend on the two arguments alone.
pub fn get_ceiling_and_floor_heights_from_distance(distance: u32, screen_height: usize) -> (rows: (
    usize,
    usize,
))
    ensures
        rows.0 == ceiling_of(distance as int, screen_height as int),
        rows.1 == floor_of(distance as int, screen_height as int),
        2 * rows.0 <= screen_height,
        rows.0 + rows.1 == screen_height,
{
    assert(STEPS_PER_CELL == 10);
    let ceiling: usize = if distance <= 20 {
        0
    } else {
        proof {
            lemma_ceiling_is_floor_of_quotient(distance as int, screen_height as int);
        }
        assert(0 <= screen_height * (distance - 20) <= 0x1_0000_0000_0000_0000 * 0x1_0000_0000)
            by (nonlinear_arith)
            requires
                0 <= screen_height <= 0x1_0000_0000_0000_0000,
                20 < distance <= 0x1_0000_0000,
        ;
        (((screen_height as u128) * ((distance - 20) as u128)) / (2 * (distance as u128))) as usize
    };
    let floor: usize = screen_height - ceiling;
    (ceiling, floor)
}

/// Picks the glyph of a wall by its distance.
pub fn render_wall(distance: u32) -> (glyph: char)
    ensures
        glyph == wall_glyph(distance as int),
{
    let far: u64 = MAX_DEPTH_STEPS as u64;
    let near: u64 = distance as u64;
    if 4 * near < far {
        '\u{2588}'
    } else if 3 * near < far {
        '\u{2593}'
    } else if 2 * near < far {
        '\u{2592}'
    } else if near < far {
        '\u{2591}'
    } else {
        ' '
    }
}

/// Tells whether row `y` has a brightness below `p / q`.
fn is_dimmer_than(y: usize, screen_height: usize, p: u8, q: u8) -> (dimmer: bool)
    ensures
        dimmer == dimmer_than(y as int, screen_height as int, p as int, q as int),
{
    let depth: i128 = 2 * ((screen_height as i128) - (y as i128));
    assert(-0x200_0000_0000_0000_0000 <= depth * q <= 0x200_0000_0000_0000_0000)
        by (nonlinear_arith)
        requires
            -0x2_0000_0000_0000_0000 <= depth <= 0x2_0000_0000_0000_0000,
            0 <= q < 0x100,
    ;
    assert(0 <= p * screen_height <= 0x100_0000_0000_0000_0000) by (nonlinear_arith)
        requires
            0 <= screen_height <= 0x1_0000_0000_0000_0000,
            0 <= p < 0x100,
    ;
    assert(2 * (screen_height - y) * q == depth * q) by (nonlinear_arith)
        requires
            depth == 2 * (screen_height - y),
    ;
    depth * (q as i128) < (p as i128) * (screen_height as i128)
}

/// Picks the glyph of the floor by its row.
pub fn render_floor(y: usize, screen_height: usize) -> (glyph: char)
    ensures
        glyph == floor_glyph(y as int, screen_height as int),
{
    if is_dimmer_than(y, screen_height, 1, 4) {
        '#'
    } else if is_dimmer_than(y, screen_height, 1, 2) {
        'x'
    } else if is_dimmer_than(y, screen_height, 13, 20) {
        ','
    } else if is_dimmer_than(y, screen_height, 3, 4) {
        '.'
    } else if is_dimmer_than(y, screen_height, 4, 5) {
        '_'
    } else if is_dimmer_than(y, screen_height, 9, 10) {
        '-'
    } else {
        ' '
    }
}

} // verus!
