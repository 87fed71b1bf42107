//! The two states of a map cell and their one-character notation.

use vstd::prelude::*;

verus! {

/// Why a map could not be built from text.
#[derive(Clone, Copy, Debug, PartialEq, Eq, Structural)]
pub enum FormatError {
    /// A row does not have exactly one character per cell of a line.
    RowLength,
    /// A row was addressed to a line that the map does not have.
    RowIndex,
    /// A character stands for no cell state.
    UnknownCell,
}

/// What occupies one cell of the map.
#[derive(Clone, Copy, Debug, PartialEq, Eq, Structural)]
pub enum Space {
    Wall,
    Empty,
}

impl Space {
    /// The cell state that a character denotes, if it denotes one.
    pub open spec fn parse(c: char) -> Option<Space> {
        if c == '#' {
            Some(Space::Wall)
        } else if c == '.' {
            Some(Space::Empty)
        } else {
            None
        }
    }

    /// The character that denotes this cell state.
    pub open spec fn glyph(self) -> char {
        match self {
            Space::Wall => '#',
            Space::Empty => '.',
        }
    }

    /// Reads a cell state from its character.
    pub fn from_char(c: char) -> (r: Result<Space, FormatError>)
        ensures
            r == match Space::parse(c) {
                Some(s) => Ok::<Space, FormatError>(s),
                None => Err::<Space, FormatError>(FormatError::UnknownCell),
            },
    {
        if c == '#' {
            Ok(Space::Wall)
        } else if c == '.' {
            Ok(Space::Empty)
        } else {
            Err(FormatError::UnknownCell)
        }
    }

    /// Writes a cell state as its character.
    pub fn to_char(self) -> (c: char)
        ensures
            c == self.glyph(),
            Space::parse(c) == Some(self),
    {
        match self {
            Space::Wall => '#',
            Space::Empty => '.',
        }
    }

    /// Writing a cell state and reading the character back gives the same
    /// state, and `#` is the character of a wall and of nothing else.
    pub proof fn lemma_glyph_round_trip(s: Space)
        ensures
            Space::parse(s.glyph()) == Some(s),
            s == Space::Wall <==> s.glyph() == '#',
    {
    }

    /// A character that denotes a cell state is the one that the state is
    /// written as.
    pub proof fn lemma_parse_is_injective(c: char, s: Space)
        requires
            Space::parse(c) == Some(s),
        ensures
            s.glyph() == c,
    {
    }
}

impl Default for Space {
    fn default() -> (s: Self)
        ensures
            s == Space::Empty,
    {
        Space::Empty
    }
}

} // verus!
