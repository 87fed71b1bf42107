//! The escape sequences that draw a frame on a terminal.

use vstd::prelude::*;

verus! {

/// The character of the decimal digit `d`.
pub open spec fn digit(d: nat) -> char {
    ('0' as nat + d) as char
}

/// The decimal notation of `n`, without leading zeros.
pub open spec fn decimal(n: nat) -> Seq<char>
    decreases n,
{
    if n < 10 {
        seq![digit(n)]
    } else {
        decimal(n / 10).push(digit(n % 10))
    }
}

/// The sequence that clears the whole screen: `ESC [ 2 J`.
pub open spec fn clear_all_text() -> Seq<char> {
    seq!['\u{1b}', '[', '2', 'J']
}

/// The sequence that moves the cursor to a column and a row, both counted
/// from 1: `ESC [ row ; column H`, the numbers in decimal.
pub open spec fn goto_text(column: nat, row: nat) -> Seq<char> {
    seq!['\u{1b}', '['] + decimal(row) + seq![';'] + decimal(column) + seq!['H']
}

/// Formats `termion::clear::All`. Its `Display` writes the fixed text
/// `ESC [ 2 J`; the contract claims that the string holds exactly that.
#[verifier::external_body]
pub(crate) fn clear_all() -> (text: String)
    ensures
        text@ == clear_all_text(),
{
    format!("{}", termion::clear::All)
}

/// Formats `termion::cursor::Goto(column, row)`. Its `Display` writes
/// `ESC [`, the row, `;`, the column and `H`, each number as `u16` is
/// displayed, which is in decimal without padding; the contract claims that
/// the string holds exactly that. Positions are counted from 1, and
/// formatting the position (0, 0) fails a debug assertion of termion, so a
/// zero is left out.
#[verifier::external_body]
pub(crate) fn goto(column: u16, row: u16) -> (text: String)
    requires
        column >= 1,
        row >= 1,
    ensures
        text@ == goto_text(column as nat, row as nat),
{
    format!("{}", termion::cursor::Goto(column, row))
}

/// Calls `String::push`, which appends one character to the end of the
/// string.
#[verifier::external_body]
pub(crate) fn push_glyph(text: &mut String, glyph: char)
    ensures
        final(text)@ == old(text)@.push(glyph),
{
    text.push(glyph)
}

} // verus!
