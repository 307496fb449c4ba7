//! Colors and cells: the value types a grid position is made of.

use vstd::prelude::*;

verus! {

/// A color tag. The grid stores only the tag; mapping a tag to a concrete
/// color is left to whoever draws the grid.
#[derive(Clone, Copy, Debug, PartialEq, Eq, Structural)]
pub enum Color {
    Black,
    Red,
    Green,
    Yellow,
    Blue,
    Magenta,
    Cyan,
    White,
    BrightBlack,
    BrightRed,
    BrightGreen,
    BrightYellow,
    BrightBlue,
    BrightMagenta,
    BrightCyan,
    BrightWhite,
    DefaultFg,
    DefaultBg,
}

/// One grid position: a glyph and the attributes it was written with.
#[derive(Clone, Copy, Debug, PartialEq, Eq, Structural)]
pub struct Cell {
    pub char: char,
    pub fg: Color,
    pub bg: Color,
    pub inverse: bool,
}

/// The cell an untouched grid position holds: a space in default colors.
pub open spec fn default_cell() -> Cell {
    Cell { char: ' ', fg: Color::DefaultFg, bg: Color::DefaultBg, inverse: false }
}

impl Default for Cell {
    fn default() -> (c: Self)
        ensures
            c == default_cell(),
    {
        Cell { char: ' ', fg: Color::DefaultFg, bg: Color::DefaultBg, inverse: false }
    }
}

} // verus!
