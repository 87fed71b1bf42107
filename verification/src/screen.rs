//! The screen buffer: a rectangle of glyphs that every frame overwrites.

use vstd::prelude::*;
use crate::camera::PlayerCamera;
use crate::grid::GridMap;
use crate::ray::{ray_distance, Ray};
use crate::terminal::{clear_all, clear_all_text, goto, goto_text, push_glyph};
use crate::shade::{
    column_glyph, get_ceiling_and_floor_heights_from_distance, render_floor, render_wall,
};

verus! {

/// What the first `n` rows of a screen look like on a terminal: each row is
/// preceded by the sequence that moves the cursor to the start of its line.
pub open spec fn rows_text(rows: Seq<Seq<char>>, n: int) -> Seq<char>
    decreases n,
{
    if n <= 0 {
        Seq::empty()
    } else {
        rows_text(rows, n - 1) + goto_text(1, n as nat) + rows[n - 1]
    }
}

/// What a screen looks like on a terminal: the sequence that clears it, and
/// then row after row.
pub open spec fn frame_text_of(rows: Seq<Seq<char>>) -> Seq<char> {
    clear_all_text() + rows_text(rows, rows.len() as int)
}

/// A screen of glyphs, row by row from the top.
#[derive(Debug)]
pub struct ScreenBuffer {
    rows: Vec<Vec<char>>,
    width: usize,
}

impl View for ScreenBuffer {
    type V = Seq<Seq<char>>;

    /// The rows of the screen from the top, each from the left:
    /// `self@[y][x]` is the glyph in column `x` of row `y`.
    closed spec fn view(&self) -> Seq<Seq<char>> {
        Seq::new(self.rows@.len(), |y: int| self.rows@[y]@)
    }
}

impl ScreenBuffer {
    /// The number of columns.
    pub closed spec fn spec_width(self) -> nat {
        self.width as nat
    }

    /// The number of rows.
    pub open spec fn spec_height(self) -> nat {
        self@.len()
    }

    /// The screen is a rectangle: every row has `spec_width()` glyphs.
    pub open spec fn wf(self) -> bool {
        forall|y: int| 0 <= y < self@.len() ==> (#[trigger] self@[y]).len() == self.spec_width()
    }

    /// A screen of `height` rows and `width` columns, filled with `x`.
    pub fn with_size(width: usize, height: usize) -> (screen: Self)
        ensures
            screen.wf(),
            screen.spec_width() == width,
            screen.spec_height() == height,
            forall|x: int, y: int|
                0 <= x < width && 0 <= y < height ==> #[trigger] screen@[y][x] == 'x',
    {
        let mut rows: Vec<Vec<char>> = Vec::new();
        let mut y: usize = 0;
        while y < height
            invariant
                y <= height,
                rows@.len() == y,
                forall|j: int| 0 <= j < y ==> (#[trigger] rows@[j])@.len() == width,
                forall|i: int, j: int|
                    0 <= i < width && 0 <= j < y ==> #[trigger] rows@[j]@[i] == 'x',
            decreases height - y,
        {
            let mut row: Vec<char> = Vec::new();
            let mut x: usize = 0;
            while x < width
                invariant
                    x <= width,
                    row@.len() == x,
                    forall|i: int| 0 <= i < x ==> row@[i] == 'x',
                decreases width - x,
            {
                row.push('x');
                x += 1;
            }
            rows.push(row);
            y += 1;
        }
        ScreenBuffer { rows, width }
    }

    /// The number of columns.
    pub fn width(&self) -> (w: usize)
        ensures
            w == self.spec_width(),
    {
        self.width
    }

    /// The number of rows.
    pub fn height(&self) -> (h: usize)
        ensures
            h == self.spec_height(),
    {
        self.rows.len()
    }

    /// Reads the glyph in column `x` of row `y`.
    pub fn glyph_at(&self, x: usize, y: usize) -> (glyph: char)
        requires
            self.wf(),
            x < self.spec_width(),
            y < self.spec_height(),
        ensures
            glyph == self@[y as int][x as int],
    {
        assert(self@[y as int] == self.rows@[y as int]@);
        self.rows[y][x]
    }

    /// Paints the view of the map from the camera: column `x` shows the wall
    /// at the distance of ray `x`, between sky and floor. Every glyph of the
    /// screen is overwritten.
    pub fn render(&mut self, player: &PlayerCamera, map: &GridMap, rays: &Vec<Ray>)
        requires
            old(self).wf(),
            rays@.len() == old(self).spec_width(),
        ensures
            final(self).wf(),
            final(self).spec_width() == old(self).spec_width(),
            final(self).spec_height() == old(self).spec_height(),
            forall|x: int, y: int|
                0 <= x < final(self).spec_width() && 0 <= y < final(self).spec_height()
                    ==> #[trigger] final(self)@[y][x] == column_glyph(
                    ray_distance(map@, *player, rays@[x]),
                    y,
                    final(self).spec_height() as int,
                ),
    {
        let screen_width: usize = self.width;
        let screen_height: usize = self.rows.len();
        let distances = map.get_distances(player, rays);
        assert forall|j: int| 0 <= j < screen_height implies (#[trigger] self.rows@[j])@.len()
            == screen_width by {
            assert(self@[j] == self.rows@[j]@);
        }
        let mut x: usize = 0;
        while x < screen_width
            invariant
                x <= screen_width,
                screen_width == self.width == old(self).width,
                screen_height == self.rows@.len() == old(self).rows@.len(),
                distances@.len() == screen_width,
                rays@.len() == screen_width,
                forall|i: int|
                    0 <= i < screen_width ==> #[trigger] distances@[i] == ray_distance(
                        map@,
                        *player,
                        rays@[i],
                    ),
                forall|j: int|
                    0 <= j < screen_height ==> (#[trigger] self.rows@[j])@.len() == screen_width,
                forall|i: int, j: int|
                    0 <= i < x && 0 <= j < screen_height ==> #[trigger] self.rows@[j]@[i]
                        == column_glyph(distances@[i] as int, j, screen_height as int),
            decreases screen_width - x,
        {
            let distance: u32 = distances[x];
            let (ceiling, floor) = get_ceiling_and_floor_heights_from_distance(
                distance,
                screen_height,
            );
            let mut y: usize = 0;
            while y < screen_height
                invariant
                    y <= screen_height,
                    x < screen_width,
                    screen_width == self.width == old(self).width,
                    screen_height == self.rows@.len() == old(self).rows@.len(),
                    distance == distances@[x as int],
                    ceiling == crate::shade::ceiling_of(distance as int, screen_height as int),
                    floor == crate::shade::floor_of(distance as int, screen_height as int),
                    forall|j: int|
                        0 <= j < screen_height ==> (#[trigger] self.rows@[j])@.len()
                            == screen_width,
                    forall|i: int, j: int|
                        0 <= i < x && 0 <= j < screen_height ==> #[trigger] self.rows@[j]@[i]
                            == column_glyph(distances@[i] as int, j, screen_height as int),
                    forall|j: int|
                        0 <= j < y ==> #[trigger] self.rows@[j]@[x as int] == column_glyph(
                            distance as int,
                            j,
                            screen_height as int,
                        ),
                decreases screen_height - y,
            {
                let glyph: char = if y <= ceiling {
                    ' '
                } else if y <= floor {
                    render_wall(distance)
                } else {
                    render_floor(y, screen_height)
                };
                self.rows[y][x] = glyph;
                y += 1;
            }
            x += 1;
        }
    }

    /// Composes the text that draws the screen on a terminal: the screen is
    /// cleared and each row is written at the start of its line. A terminal
    /// addresses its lines by 16-bit numbers.
    pub fn frame_text(&self) -> (text: String)
        requires
            self.spec_height() <= u16::MAX,
        ensures
            text@ == frame_text_of(self@),
    {
        let mut text = clear_all();
        let mut y: usize = 0;
        while y < self.rows.len()
            invariant
                y <= self.rows@.len() <= u16::MAX,
                self@.len() == self.rows@.len(),
                text@ == clear_all_text() + rows_text(self@, y as int),
            decreases self.rows@.len() - y,
        {
            let line = goto(1, (y + 1) as u16);
            text.append(line.as_str());
            let row = &self.rows[y];
            let ghost before = text@;
            let mut x: usize = 0;
            while x < row.len()
                invariant
                    x <= row@.len(),
                    text@ == before + row@.subrange(0, x as int),
                decreases row@.len() - x,
            {
                push_glyph(&mut text, row[x]);
                x += 1;
            }
            assert(row@.subrange(0, row@.len() as int) == row@);
            assert(self@[y as int] == row@);
            assert(text@ == clear_all_text() + rows_text(self@, y + 1));
            y += 1;
        }
        text
    }
}

} // verus!
