//! The map: a fixed grid of cells, built from rows of text.

use vstd::prelude::*;
use crate::params::{MAP_HEIGHT, MAP_WIDTH};
use crate::space::{FormatError, Space};

verus! {

/// The cell states that a row of text denotes, character by character.
pub open spec fn parsed_row(text: Seq<char>) -> Seq<Space> {
    Seq::new(text.len(), |i: int| Space::parse(text[i]).unwrap())
}

/// Every character of the text denotes a cell state.
pub open spec fn well_written(text: Seq<char>) -> bool {
    forall|i: int| 0 <= i < text.len() ==> Space::parse(#[trigger] text[i]) is Some
}

/// What is wrong with `text` as the content of line `line`, if anything:
/// first its length, then the line's number, then its characters.
pub open spec fn line_error(line: int, text: Seq<char>) -> Option<FormatError> {
    if text.len() != MAP_WIDTH {
        Some(FormatError::RowLength)
    } else if line >= MAP_HEIGHT {
        Some(FormatError::RowIndex)
    } else if !well_written(text) {
        Some(FormatError::UnknownCell)
    } else {
        None
    }
}

/// A line of empty cells.
pub open spec fn empty_line() -> Seq<Space> {
    Seq::new(MAP_WIDTH as nat, |x: int| Space::Empty)
}

/// The grid that rows of text denote: line `y` is row `y`, and the lines
/// for which no row is given are empty.
pub open spec fn grid_of_rows(rows: Seq<&str>) -> Seq<Seq<Space>> {
    Seq::new(
        MAP_HEIGHT as nat,
        |y: int|
            if y < rows.len() {
                parsed_row(rows[y]@)
            } else {
                empty_line()
            },
    )
}

/// The cell in column `x` of line `y` of the room that `GridMap::standard`
/// builds: walls all around, nothing inside.
pub open spec fn standard_cell(x: int, y: int) -> Space {
    if x == 0 || x == MAP_WIDTH - 1 || y == 0 || y == MAP_HEIGHT - 1 {
        Space::Wall
    } else {
        Space::Empty
    }
}

/// Reads the cells of a row of text, or finds a character that denotes
/// none.
fn parse_row(s: &str) -> (r: Result<Vec<Space>, FormatError>)
    ensures
        match r {
            Ok(row) => well_written(s@) && row@ == parsed_row(s@),
            Err(e) => !well_written(s@) && e == FormatError::UnknownCell,
        },
{
    let length = s.unicode_len();
    let mut row: Vec<Space> = Vec::new();
    let mut i: usize = 0;
    while i < length
        invariant
            i <= length == s@.len(),
            row@.len() == i,
            forall|j: int| 0 <= j < i ==> Space::parse(#[trigger] s@[j]) == Some(row@[j]),
        decreases length - i,
    {
        match Space::from_char(s.get_char(i)) {
            Ok(state) => {
                row.push(state);
            },
            Err(e) => {
                return Err(e);
            },
        }
        i += 1;
    }
    assert(row@ =~= parsed_row(s@));
    Ok(row)
}

/// A map of `MAP_WIDTH` by `MAP_HEIGHT` cells, stored line after line.
#[derive(Debug)]
pub struct GridMap {
    cells: Vec<Space>,
}

impl View for GridMap {
    type V = Seq<Seq<Space>>;

    /// The lines of the map from the first to the last, each from its first
    /// cell to its last: `self@[y][x]` is the cell in column `x` of line `y`.
    open spec fn view(&self) -> Seq<Seq<Space>> {
        Seq::new(
            MAP_HEIGHT as nat,
            |y: int| Seq::new(MAP_WIDTH as nat, |x: int| self.cell(x, y)),
        )
    }
}

impl GridMap {
    #[verifier::type_invariant]
    spec fn well_formed(self) -> bool {
        self.cells@.len() == MAP_WIDTH * MAP_HEIGHT
    }

    /// The state of the cell in column `x` of line `y`.
    pub closed spec fn cell(self, x: int, y: int) -> Space {
        self.cells@[y * MAP_WIDTH + x]
    }

    /// A map without walls.
    pub fn empty() -> (map: Self)
        ensures
            forall|x: int, y: int|
                0 <= x < MAP_WIDTH && 0 <= y < MAP_HEIGHT ==> #[trigger] map@[y][x]
                    == Space::Empty,
    {
        let mut cells: Vec<Space> = Vec::new();
        let mut i: usize = 0;
        while i < MAP_WIDTH * MAP_HEIGHT
            invariant
                i <= MAP_WIDTH * MAP_HEIGHT,
                cells@.len() == i,
                forall|j: int| 0 <= j < i ==> cells@[j] == Space::Empty,
            decreases MAP_WIDTH * MAP_HEIGHT - i,
        {
            cells.push(Space::Empty);
            i += 1;
        }
        GridMap { cells }
    }

    /// The room that the renderer starts from: walls all around and nothing
    /// inside.
    pub fn standard() -> (map: Self)
        ensures
            forall|x: int, y: int|
                0 <= x < MAP_WIDTH && 0 <= y < MAP_HEIGHT ==> #[trigger] map@[y][x]
                    == standard_cell(x, y),
    {
        let mut map = GridMap::empty();
        proof {
            reveal_strlit("################");
            reveal_strlit("#..............#");
            assert(well_written("################"@));
            assert(well_written("#..............#"@));
        }
        let _ = map.set_line(0, "################");
        let _ = map.set_line(15, "################");
        let mut line: usize = 1;
        while line <= 14
            invariant
                1 <= line <= 15,
                well_written("#..............#"@),
                "#..............#"@.len() == MAP_WIDTH,
                forall|x: int, y: int|
                    0 <= x < MAP_WIDTH && (0 <= y < line || y == 15) ==> #[trigger] map@[y][x]
                        == standard_cell(x, y),
            decreases 15 - line,
        {
            proof {
                reveal_strlit("#..............#");
            }
            let _ = map.set_line(line, "#..............#");
            line += 1;
        }
        map
    }

    /// Builds a map from rows of text, the first row for the first line.
    /// Lines for which no row is given stay empty. The first row that is
    /// not a line of the map decides the error.
    pub fn build_from_rows(rows: &[&str]) -> (r: Result<Self, FormatError>)
        ensures
            match r {
                Ok(map) => {
                    &&& forall|i: int|
                        0 <= i < rows@.len() ==> line_error(i, (#[trigger] rows@[i])@) is None
                    &&& map@ == grid_of_rows(rows@)
                    &&& forall|x: int, y: int|
                        0 <= x < MAP_WIDTH && 0 <= y < rows@.len() ==> (#[trigger] map@[y][x]
                            == Space::Wall <==> rows@[y]@[x] == '#')
                },
                Err(e) => exists|i: int|
                    {
                        &&& 0 <= i < rows@.len()
                        &&& line_error(i, (#[trigger] rows@[i])@) == Some(e)
                        &&& forall|j: int|
                            0 <= j < i ==> line_error(j, (#[trigger] rows@[j])@) is None
                    },
            },
    {
        let mut map = GridMap::empty();
        let mut i: usize = 0;
        while i < rows.len()
            invariant
                i <= rows@.len(),
                forall|j: int| 0 <= j < i ==> line_error(j, (#[trigger] rows@[j])@) is None,
                forall|x: int, y: int|
                    0 <= x < MAP_WIDTH && 0 <= y < MAP_HEIGHT ==> #[trigger] map@[y][x] == if y
                        < i {
                        parsed_row(rows@[y]@)[x]
                    } else {
                        Space::Empty
                    },
            decreases rows@.len() - i,
        {
            match map.set_line(i, rows[i]) {
                Ok(()) => {},
                Err(e) => {
                    return Err(e);
                },
            }
            i += 1;
        }
        assert(map@ =~~= grid_of_rows(rows@));
        Ok(map)
    }

    /// Looks up the cell in column `x` of line `y`.
    pub fn cell_at(&self, x: usize, y: usize) -> (s: Space)
        requires
            x < MAP_WIDTH,
            y < MAP_HEIGHT,
        ensures
            s == self@[y as int][x as int],
    {
        proof {
            use_type_invariant(self);
        }
        self.cells[y * MAP_WIDTH + x]
    }

    /// Replaces line `line` by the cells that `s` denotes, one character per
    /// cell, `#` for a wall and `.` for an empty cell. A row of another
    /// length, a line that the map does not have, or any other character is
    /// rejected, and the map stays as it was.
    pub fn set_line(&mut self, line: usize, s: &str) -> (r: Result<(), FormatError>)
        ensures
            match line_error(line as int, s@) {
                Some(e) => r == Err::<(), FormatError>(e) && final(self)@ == old(self)@,
                None => r == Ok::<(), FormatError>(()) && final(self)@ == old(self)@.update(
                    line as int,
                    parsed_row(s@),
                ),
            },
            r is Ok ==> forall|x: int|
                0 <= x < MAP_WIDTH ==> (#[trigger] final(self)@[line as int][x] == Space::Wall
                    <==> s@[x] == '#'),
    {
        proof {
            use_type_invariant(&*self);
        }
        if s.unicode_len() != MAP_WIDTH {
            return Err(FormatError::RowLength);
        }
        if line >= MAP_HEIGHT {
            return Err(FormatError::RowIndex);
        }
        let row = match parse_row(s) {
            Ok(row) => row,
            Err(e) => {
                return Err(e);
            },
        };
        let mut x: usize = 0;
        while x < MAP_WIDTH
            invariant
                x <= MAP_WIDTH,
                line < MAP_HEIGHT,
                row@ == parsed_row(s@),
                row@.len() == MAP_WIDTH,
                self.cells@.len() == MAP_WIDTH * MAP_HEIGHT,
                forall|j: int|
                    0 <= j < MAP_WIDTH * MAP_HEIGHT ==> #[trigger] self.cells@[j] == if line
                        * MAP_WIDTH <= j < line * MAP_WIDTH + x {
                        row@[j - line * MAP_WIDTH]
                    } else {
                        old(self).cells@[j]
                    },
            decreases MAP_WIDTH - x,
        {
            self.cells[line * MAP_WIDTH + x] = row[x];
            x += 1;
        }
        assert(final(self)@ =~~= old(self)@.update(line as int, parsed_row(s@)));
        Ok(())
    }
}

impl Default for GridMap {
    /// A map without walls.
    fn default() -> (map: Self)
        ensures
            forall|x: int, y: int|
                0 <= x < MAP_WIDTH && 0 <= y < MAP_HEIGHT ==> #[trigger] map@[y][x]
                    == Space::Empty,
    {
        GridMap::empty()
    }
}

} // verus!
