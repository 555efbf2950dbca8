//! The cell: one character position of the grid.

use vstd::prelude::*;
use crate::theme::Color;

verus! {

/// A single character cell: the character shown and the colours it was
/// written with.
#[derive(Clone, Copy, Debug, PartialEq, Eq, Structural)]
pub struct Cell {
    /// The character to display; a space stands for an empty cell.
    pub c: char,
    pub fg: Color,
    pub bg: Color,
}

impl Cell {
    /// The empty cell painted with the given colours.
    pub open spec fn blank(fg: Color, bg: Color) -> Cell {
        Cell { c: ' ', fg, bg }
    }

    /// Whether the cell shows nothing on a background of colour `bg`.
    pub open spec fn is_blank(self, bg: Color) -> bool {
        self.c == ' ' && self.bg == bg
    }

    /// The empty cell painted with the given colours.
    pub fn empty(fg: Color, bg: Color) -> (cell: Cell)
        ensures
            cell == Cell::blank(fg, bg),
    {
        Cell { c: ' ', fg, bg }
    }
}

impl Default for Cell {
    /// A space in white on black.
    fn default() -> (cell: Cell)
        ensures
            cell == Cell::blank(Color::rgb(255, 255, 255), Color::rgb(0, 0, 0)),
    {
        Cell { c: ' ', fg: Color { r: 255, g: 255, b: 255 }, bg: Color { r: 0, g: 0, b: 0 } }
    }
}

/// A row of `width` empty cells painted with the given colours.
pub open spec fn blank_row(width: nat, fg: Color, bg: Color) -> Seq<Cell> {
    Seq::new(width, |x: int| Cell::blank(fg, bg))
}

/// Whether every cell of `row` is blank on a background of colour `bg`.
pub open spec fn row_is_blank(row: Seq<Cell>, bg: Color) -> bool {
    forall|x: int| 0 <= x < row.len() ==> (#[trigger] row[x]).is_blank(bg)
}

} // verus!
