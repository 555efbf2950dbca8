//! The mathematical model of a grid, and what each terminal event makes of it.

use vstd::prelude::*;
use crate::cell::{blank_row, row_is_blank, Cell};
use crate::theme::{is_ansi_code, Color, Theme};
use crate::width::glyph_width;

verus! {

/// The largest row index that the cursor can take. A cursor that is moved
/// further down stays on this row.
pub const MAX_ROW: usize = usize::MAX - 1;

/// The value of the `i`-th parameter of a control sequence: the first number
/// of the `i`-th group, if there is one.
pub open spec fn param(params: Seq<Seq<u16>>, i: int) -> Option<u16> {
    if 0 <= i < params.len() && params[i].len() > 0 {
        Some(params[i][0])
    } else {
        None
    }
}

/// The value of the `i`-th parameter, or `default` where it is absent.
pub open spec fn param_or(params: Seq<Seq<u16>>, i: int, default: u16) -> u16 {
    match param(params, i) {
        Some(v) => v,
        None => default,
    }
}

/// `row` with the cells from column `from` up to, but not including, column
/// `to` replaced by `fill`.
pub open spec fn erased(row: Seq<Cell>, from: int, to: int, fill: Cell) -> Seq<Cell> {
    Seq::new(
        row.len(),
        |x: int|
            if from <= x < to {
                fill
            } else {
                row[x]
            },
    )
}

/// The number of rows that are left of `rows` once the blank rows at its end
/// are dropped. The first row always stays.
pub open spec fn trimmed_height(rows: Seq<Seq<Cell>>, bg: Color) -> nat
    decreases rows.len(),
{
    if rows.len() > 1 && row_is_blank(rows.last(), bg) {
        trimmed_height(rows.drop_last(), bg)
    } else {
        rows.len()
    }
}

/// What a grid is: its rows of cells, the cursor, and the colours that the
/// next character is written with.
#[verifier::ext_equal]
pub struct GridState {
    /// The number of columns; every row has as many cells.
    pub width: nat,
    /// The rows, top first.
    pub rows: Seq<Seq<Cell>>,
    /// The cursor's column.
    pub cursor_x: nat,
    /// The cursor's row. It may lie below the last row: rows are added when
    /// something is written or addressed there.
    pub cursor_y: nat,
    /// The current foreground colour.
    pub fg: Color,
    /// The current background colour.
    pub bg: Color,
    /// The active theme.
    pub theme: Theme,
}

impl GridState {
    /// The number of rows.
    pub open spec fn height(self) -> nat {
        self.rows.len()
    }

    /// The invariant of a grid: it has at least one column and one row, every
    /// row is `width` cells long, the cursor is on a column of the grid, and
    /// its row is no larger than [`MAX_ROW`].
    pub open spec fn wf(self) -> bool {
        &&& self.width >= 1
        &&& self.rows.len() >= 1
        &&& forall|y: int| 0 <= y < self.rows.len() ==> (#[trigger] self.rows[y]).len() == self.width
        &&& self.cursor_x < self.width
        &&& self.cursor_y <= MAX_ROW
    }

    /// Whether the whole grid stands on the theme's background: the current
    /// background colour and the background of every cell are the theme's.
    pub open spec fn on_theme_background(self) -> bool {
        &&& self.bg == self.theme.background()
        &&& forall|y: int, x: int|
            0 <= y < self.rows.len() && 0 <= x < self.rows[y].len() ==> (#[trigger] self.rows[y][x]).bg
                == self.theme.background()
    }

    /// The grid before any event: one row of empty cells in the theme's
    /// colours, the cursor at the top left.
    pub open spec fn initial(width: nat, theme: Theme) -> GridState {
        GridState {
            width,
            rows: seq![blank_row(width, theme.foreground(), theme.background())],
            cursor_x: 0,
            cursor_y: 0,
            fg: theme.foreground(),
            bg: theme.background(),
            theme,
        }
    }

    /// The row below row `y`, as far as there is one.
    pub open spec fn row_below(y: nat) -> nat {
        if y < MAX_ROW {
            y + 1
        } else {
            MAX_ROW as nat
        }
    }

    /// The grid with empty rows in the given colours appended until row `y`
    /// exists.
    pub open spec fn grown(self, y: nat, fg: Color, bg: Color) -> GridState {
        GridState {
            rows: Seq::new(
                if self.rows.len() > y {
                    self.rows.len()
                } else {
                    y + 1
                },
                |i: int|
                    if i < self.rows.len() {
                        self.rows[i]
                    } else {
                        blank_row(self.width, fg, bg)
                    },
            ),
            ..self
        }
    }

    /// The grid with `cell` written at column `x` of row `y`.
    pub open spec fn with_cell(self, x: nat, y: nat, cell: Cell) -> GridState {
        GridState { rows: self.rows.update(y as int, self.rows[y as int].update(x as int, cell)), ..self }
    }

    /// The grid after a character `c` that takes `w` columns is written at
    /// the cursor.
    ///
    /// A character of no width is dropped. One that does not fit into the rest
    /// of the cursor's row goes to the start of the next row. Rows that are
    /// missing down to the row written to are added, empty and in the theme's
    /// colours. The cursor then moves `w` columns on, and from the end of a row
    /// to the start of the next one, which is not added yet.
    pub open spec fn placed(self, c: char, w: nat) -> GridState {
        if w == 0 {
            self
        } else {
            let wraps = self.cursor_x + w > self.width;
            let x = if wraps { 0 } else { self.cursor_x };
            let y = if wraps { Self::row_below(self.cursor_y) } else { self.cursor_y };
            let written = self.grown(y, self.theme.foreground(), self.theme.background()).with_cell(
                x,
                y,
                Cell { c, fg: self.fg, bg: self.bg },
            );
            if x + w >= self.width {
                GridState { cursor_x: 0, cursor_y: Self::row_below(y), ..written }
            } else {
                GridState { cursor_x: x + w, cursor_y: y, ..written }
            }
        }
    }

    /// The grid after the character `c` is printed.
    pub open spec fn print(self, c: char) -> GridState {
        self.placed(c, glyph_width(c))
    }

    /// The column of the tab stop after column `x`, or the last column where
    /// the stop lies beyond it.
    pub open spec fn tab_stop(self, x: nat) -> nat {
        let stop = (x / 8 + 1) * 8;
        if stop >= self.width {
            (self.width - 1) as nat
        } else {
            stop as nat
        }
    }

    /// The grid after the control byte `byte`: line feed, carriage return,
    /// tab and backspace move the cursor, any other byte does nothing.
    pub open spec fn execute(self, byte: u8) -> GridState {
        if byte == 0x0a {
            GridState { cursor_x: 0, cursor_y: Self::row_below(self.cursor_y), ..self }
        } else if byte == 0x0d {
            GridState { cursor_x: 0, ..self }
        } else if byte == 0x09 {
            GridState { cursor_x: self.tab_stop(self.cursor_x), ..self }
        } else if byte == 0x08 {
            GridState { cursor_x: if self.cursor_x > 0 { (self.cursor_x - 1) as nat } else { 0 }, ..self }
        } else {
            self
        }
    }

    /// The grid after one SGR parameter: 0 resets both colours to the
    /// theme's, a foreground code sets the foreground, anything else, and an
    /// absent value, does nothing.
    pub open spec fn sgr_one(self, code: Option<u16>) -> GridState {
        match code {
            Some(p) => {
                if p == 0 {
                    GridState { fg: self.theme.foreground(), bg: self.theme.background(), ..self }
                } else if is_ansi_code(p as int) {
                    GridState { fg: self.theme.ansi(p as int), ..self }
                } else {
                    self
                }
            },
            None => self,
        }
    }

    /// The grid after the SGR parameters `params`, taken in order.
    pub open spec fn sgr(self, params: Seq<Seq<u16>>) -> GridState
        decreases params.len(),
    {
        if params.len() == 0 {
            self
        } else {
            self.sgr(params.drop_last()).sgr_one(param(params, params.len() - 1))
        }
    }

    /// The grid after the cells of row `y` from column `from` up to, but not
    /// including, column `to` are erased: each is an empty cell in the current
    /// colours.
    pub open spec fn erase_span(self, y: int, from: int, to: int) -> GridState {
        GridState {
            rows: self.rows.update(y, erased(self.rows[y], from, to, Cell::blank(self.fg, self.bg))),
            ..self
        }
    }

    /// The grid after an erase in line. The cursor's row is added first where
    /// it is missing, with any rows above it, empty and in the current colours.
    /// Mode 0 erases from the cursor to the end of the row, mode 1 from the
    /// start of the row to the cursor, mode 2 the whole row, any other mode
    /// nothing.
    pub open spec fn erase_line(self, mode: u16) -> GridState {
        let g = self.grown(self.cursor_y, self.fg, self.bg);
        if mode == 0 {
            g.erase_span(self.cursor_y as int, self.cursor_x as int, self.width as int)
        } else if mode == 1 {
            g.erase_span(self.cursor_y as int, 0, self.cursor_x as int + 1)
        } else if mode == 2 {
            g.erase_span(self.cursor_y as int, 0, self.width as int)
        } else {
            g
        }
    }

    /// The grid after an erase in display. Mode 2 makes every row empty, in
    /// the current colours, and puts the cursor at the top left; any other
    /// mode does nothing.
    pub open spec fn erase_display(self, mode: u16) -> GridState {
        if mode == 2 {
            GridState {
                rows: Seq::new(self.rows.len(), |y: int| blank_row(self.width, self.fg, self.bg)),
                cursor_x: 0,
                cursor_y: 0,
                ..self
            }
        } else {
            self
        }
    }

    /// The grid after the cursor moves up by `n` rows, at most to the top.
    pub open spec fn cursor_up(self, n: nat) -> GridState {
        GridState { cursor_y: if n >= self.cursor_y { 0 } else { (self.cursor_y - n) as nat }, ..self }
    }

    /// The grid after the cursor moves down by `n` rows. Rows that are missing
    /// down to the cursor's new row are added, empty and in the current
    /// colours.
    pub open spec fn cursor_down(self, n: nat) -> GridState {
        let y = if self.cursor_y + n <= MAX_ROW { self.cursor_y + n } else { MAX_ROW as nat };
        GridState { cursor_y: y, ..self.grown(y, self.fg, self.bg) }
    }

    /// The grid after the cursor moves right by `n` columns, at most to the
    /// last column.
    pub open spec fn cursor_right(self, n: nat) -> GridState {
        GridState {
            cursor_x: if self.cursor_x + n >= self.width {
                (self.width - 1) as nat
            } else {
                self.cursor_x + n
            },
            ..self
        }
    }

    /// The grid after the cursor moves left by `n` columns, at most to the
    /// first column.
    pub open spec fn cursor_left(self, n: nat) -> GridState {
        GridState { cursor_x: if n >= self.cursor_x { 0 } else { (self.cursor_x - n) as nat }, ..self }
    }

    /// The grid after the cursor is put on row `row` and column `col`, both
    /// counted from 1, with 0 taken as 1. A column beyond the last one is the
    /// last one. Rows that are missing down to the cursor's new row are added,
    /// empty and in the current colours.
    pub open spec fn cursor_to(self, row: nat, col: nat) -> GridState {
        let y = if row >= 1 { (row - 1) as nat } else { 0 };
        let y = if y <= MAX_ROW { y } else { MAX_ROW as nat };
        let x = if col >= 1 { (col - 1) as nat } else { 0 };
        GridState {
            cursor_x: if x >= self.width { (self.width - 1) as nat } else { x },
            cursor_y: y,
            ..self.grown(y, self.fg, self.bg)
        }
    }

    /// The grid after a control sequence with the given parameters,
    /// intermediate bytes, ignore flag and final character.
    ///
    /// A sequence that is flagged or has an intermediate byte does nothing,
    /// and so does one whose final character is none of `m`, `K`, `J`, `A`,
    /// `B`, `C`, `D`, `H` and `f`. The mode of an erase is its first parameter,
    /// or 0; the distance of a cursor movement is its first parameter, or 1;
    /// row and column of a cursor position are its first two, or 1 each.
    pub open spec fn csi(
        self,
        params: Seq<Seq<u16>>,
        intermediates: Seq<u8>,
        ignore: bool,
        action: char,
    ) -> GridState {
        if ignore || intermediates.len() > 0 {
            self
        } else if action == 'm' {
            self.sgr(params)
        } else if action == 'K' {
            self.erase_line(param_or(params, 0, 0))
        } else if action == 'J' {
            self.erase_display(param_or(params, 0, 0))
        } else if action == 'A' {
            self.cursor_up(param_or(params, 0, 1) as nat)
        } else if action == 'B' {
            self.cursor_down(param_or(params, 0, 1) as nat)
        } else if action == 'C' {
            self.cursor_right(param_or(params, 0, 1) as nat)
        } else if action == 'D' {
            self.cursor_left(param_or(params, 0, 1) as nat)
        } else if action == 'H' || action == 'f' {
            self.cursor_to(param_or(params, 0, 1) as nat, param_or(params, 1, 1) as nat)
        } else {
            self
        }
    }

    /// The grid without the blank rows at its end: rows of spaces on the
    /// theme's background. The first row always stays.
    pub open spec fn trimmed(self) -> GridState {
        GridState { rows: self.rows.take(trimmed_height(self.rows, self.theme.background()) as int), ..self }
    }
}

} // verus!
