//! The grid: the rows of cells that terminal events write to.

use vstd::prelude::*;
use crate::cell::{blank_row, row_is_blank, Cell};
use crate::model::{erased, param, param_or, trimmed_height, GridState, MAX_ROW};
use crate::theme::{Color, Theme};
use crate::width::char_width;

verus! {

/// A fixed-width, dynamic-height terminal emulator grid.
#[derive(Clone, Debug)]
pub struct Grid {
    /// Grid content stored as rows of cells.
    rows: Vec<Vec<Cell>>,
    /// Terminal width in characters.
    width: usize,
    /// Cursor X position (0-indexed).
    cursor_x: usize,
    /// Cursor Y position (0-indexed).
    cursor_y: usize,
    /// Current foreground color.
    fg: Color,
    /// Current background color.
    bg: Color,
    /// Current active theme.
    theme: Theme,
}

/// The parameter groups of a control sequence as sequences of numbers.
pub open spec fn groups(params: &Vec<Vec<u16>>) -> Seq<Seq<u16>> {
    Seq::new(params@.len(), |i: int| params@[i]@)
}

/// A row of `width` empty cells in the given colours.
fn new_row(width: usize, fg: Color, bg: Color) -> (row: Vec<Cell>)
    ensures
        row@ == blank_row(width as nat, fg, bg),
{
    let mut row: Vec<Cell> = Vec::new();
    while row.len() < width
        invariant
            row.len() <= width,
            forall|x: int| 0 <= x < row.len() ==> row@[x] == Cell::blank(fg, bg),
        decreases width - row.len(),
    {
        row.push(Cell { c: ' ', fg, bg });
    }
    assert(row@ =~= blank_row(width as nat, fg, bg));
    row
}

/// The value of the `i`-th parameter of a control sequence, if it has one.
fn param_at(params: &Vec<Vec<u16>>, i: usize) -> (value: Option<u16>)
    ensures
        value == param(groups(params), i as int),
{
    if i < params.len() && params[i].len() > 0 {
        Some(params[i][0])
    } else {
        None
    }
}

/// The value of the `i`-th parameter of a control sequence, or `default`
/// where it has none.
fn param_or_default(params: &Vec<Vec<u16>>, i: usize, default: u16) -> (value: u16)
    ensures
        value == param_or(groups(params), i as int, default),
{
    match param_at(params, i) {
        Some(v) => v,
        None => default,
    }
}

impl View for Grid {
    type V = GridState;

    closed spec fn view(&self) -> GridState {
        GridState {
            width: self.width as nat,
            rows: Seq::new(self.rows@.len(), |y: int| self.rows@[y]@),
            cursor_x: self.cursor_x as nat,
            cursor_y: self.cursor_y as nat,
            fg: self.fg,
            bg: self.bg,
            theme: self.theme,
        }
    }
}

impl Grid {
    /// Whether the grid is well formed: its model meets the invariant of a
    /// grid.
    pub open spec fn wf(&self) -> bool {
        self@.wf()
    }

    /// A grid of `width` columns in the colours of `theme`, with one empty row
    /// and the cursor at the top left.
    pub fn new(width: usize, theme: Theme) -> (grid: Grid)
        requires
            width >= 1,
        ensures
            grid.wf(),
            grid@ == GridState::initial(width as nat, theme),
    {
        let fg = theme.default_fg();
        let bg = theme.bg_color();
        let mut rows: Vec<Vec<Cell>> = Vec::new();
        rows.push(new_row(width, fg, bg));
        let grid = Grid { rows, width, cursor_x: 0, cursor_y: 0, fg, bg, theme };
        assert(grid@.rows =~= GridState::initial(width as nat, theme).rows);
        grid
    }

    /// Appends empty rows in the given colours until row `y` exists.
    fn ensure_row(&mut self, y: usize, fg: Color, bg: Color)
        requires
            old(self).wf(),
            y <= MAX_ROW,
        ensures
            final(self).wf(),
            final(self)@ == old(self)@.grown(y as nat, fg, bg),
    {
        let ghost before = *self;
        while self.rows.len() <= y
            invariant
                before.wf(),
                y <= MAX_ROW,
                self.width == before.width,
                self.cursor_x == before.cursor_x,
                self.cursor_y == before.cursor_y,
                self.fg == before.fg,
                self.bg == before.bg,
                self.theme == before.theme,
                before.rows@.len() <= self.rows@.len(),
                self.rows@.len() <= before.rows@.len() || self.rows@.len() <= y + 1,
                forall|i: int| 0 <= i < before.rows@.len() ==> (#[trigger] self.rows@[i]) == before.rows@[i],
                forall|i: int|
                    before.rows@.len() <= i < self.rows@.len() ==> (#[trigger] self.rows@[i])@ == blank_row(
                        before.width as nat,
                        fg,
                        bg,
                    ),
            decreases y + 1 - self.rows.len(),
        {
            let row = new_row(self.width, fg, bg);
            self.rows.push(row);
        }
        proof {
            let want = before@.grown(y as nat, fg, bg);
            assert(self@.rows.len() == want.rows.len());
            assert forall|i: int| 0 <= i < self@.rows.len() implies self@.rows[i] == want.rows[i] by {
                if i < before.rows@.len() {
                    assert(self.rows@[i] == before.rows@[i]);
                    assert(before@.rows[i] == before.rows@[i]@);
                } else {
                    assert(self.rows@[i]@ == blank_row(before.width as nat, fg, bg));
                }
            }
            assert(self@.rows =~= want.rows);
            assert forall|i: int| 0 <= i < self@.rows.len() implies (#[trigger] self@.rows[i]).len()
                == self@.width by {
                if i < before.rows@.len() {
                    assert(before@.rows[i].len() == before@.width);
                }
            }
        }
    }

    /// Erases the cells of row `y` from column `from` up to, but not
    /// including, column `to`.
    fn fill_span(&mut self, y: usize, from: usize, to: usize)
        requires
            old(self).wf(),
            y < old(self)@.rows.len(),
            from <= to <= old(self)@.width,
        ensures
            final(self).wf(),
            final(self)@ == old(self)@.erase_span(y as int, from as int, to as int),
    {
        let ghost before = *self;
        let fill = Cell { c: ' ', fg: self.fg, bg: self.bg };
        let mut x = from;
        assert(before@.rows[y as int].len() == before@.width);
        while x < to
            invariant
                from <= x <= to <= before.width,
                y < before.rows@.len(),
                before.wf(),
                fill == Cell::blank(before.fg, before.bg),
                self.width == before.width,
                self.cursor_x == before.cursor_x,
                self.cursor_y == before.cursor_y,
                self.fg == before.fg,
                self.bg == before.bg,
                self.theme == before.theme,
                self.rows@.len() == before.rows@.len(),
                before.rows@[y as int]@.len() == before.width,
                forall|i: int|
                    0 <= i < self.rows@.len() && i != y ==> (#[trigger] self.rows@[i]) == before.rows@[i],
                self.rows@[y as int]@ == erased(before.rows@[y as int]@, from as int, x as int, fill),
            decreases to - x,
        {
            self.rows[y][x] = fill;
            x += 1;
            assert(self.rows@[y as int]@ =~= erased(before.rows@[y as int]@, from as int, x as int, fill));
        }
        proof {
            let want = before@.erase_span(y as int, from as int, to as int);
            assert forall|i: int| 0 <= i < self@.rows.len() implies self@.rows[i] == want.rows[i] by {
                if i != y {
                    assert(self.rows@[i] == before.rows@[i]);
                    assert(before@.rows[i] == before.rows@[i]@);
                }
            }
            assert(self@.rows =~= want.rows);
            assert forall|i: int| 0 <= i < self@.rows.len() implies (#[trigger] self@.rows[i]).len()
                == self@.width by {
                if i != y {
                    assert(before@.rows[i].len() == before@.width);
                }
            }
        }
    }

    /// The row below row `y`, as far as there is one.
    fn next_row(y: usize) -> (below: usize)
        ensures
            below == GridState::row_below(y as nat),
    {
        if y < MAX_ROW {
            y + 1
        } else {
            MAX_ROW
        }
    }

    /// Writes the character `c`, which takes `w` columns, at the cursor and
    /// moves the cursor on.
    ///
    /// A character of no width is dropped. One that does not fit into the rest
    /// of the row goes to the start of the next row. The row written to is
    /// added where it is missing. A cursor that reaches the end of the row
    /// moves to the start of the next row, which is added only once something
    /// is written there.
    pub fn place_glyph(&mut self, c: char, w: usize)
        requires
            old(self).wf(),
        ensures
            final(self).wf(),
            final(self)@ == old(self)@.placed(c, w as nat),
    {
        if w == 0 {
            return ;
        }
        if w > self.width - self.cursor_x {
            self.cursor_x = 0;
            self.cursor_y = Self::next_row(self.cursor_y);
        }
        let x = self.cursor_x;
        let y = self.cursor_y;
        let theme_fg = self.theme.default_fg();
        let theme_bg = self.theme.bg_color();
        self.ensure_row(y, theme_fg, theme_bg);
        let ghost grown = self@;
        self.rows[y][x] = Cell { c, fg: self.fg, bg: self.bg };
        proof {
            let want = grown.with_cell(x as nat, y as nat, Cell { c, fg: grown.fg, bg: grown.bg });
            assert(grown.rows[y as int].len() == grown.width);
            assert forall|i: int| 0 <= i < self@.rows.len() implies self@.rows[i] == want.rows[i] by {
                if i != y {
                    assert(self@.rows[i] == grown.rows[i]);
                }
            }
            assert(self@.rows =~= want.rows);
            assert forall|i: int| 0 <= i < self@.rows.len() implies (#[trigger] self@.rows[i]).len()
                == self@.width by {
                assert(grown.rows[i].len() == grown.width);
            }
        }
        if w >= self.width - x {
            self.cursor_x = 0;
            self.cursor_y = Self::next_row(y);
        } else {
            self.cursor_x = x + w;
        }
    }

    /// Prints the character `c` at the cursor: it takes as many columns as
    /// its display width says, and none if it has no display width.
    pub fn print(&mut self, c: char)
        requires
            old(self).wf(),
        ensures
            final(self).wf(),
            final(self)@ == old(self)@.print(c),
    {
        let w = match char_width(c) {
            Some(w) => w,
            None => 0,
        };
        self.place_glyph(c, w);
    }

    /// Executes the control byte `byte`: line feed moves the cursor to the
    /// start of the next row, carriage return to the start of its row, tab to
    /// the next multiple of eight columns, backspace one column back. Any
    /// other byte does nothing.
    pub fn execute(&mut self, byte: u8)
        requires
            old(self).wf(),
        ensures
            final(self).wf(),
            final(self)@ == old(self)@.execute(byte),
    {
        if byte == 0x0a {
            self.cursor_y = Self::next_row(self.cursor_y);
            self.cursor_x = 0;
        } else if byte == 0x0d {
            self.cursor_x = 0;
        } else if byte == 0x09 {
            let stop = self.cursor_x / 8 * 8;
            if self.width - stop <= 8 {
                self.cursor_x = self.width - 1;
            } else {
                self.cursor_x = stop + 8;
            }
        } else if byte == 0x08 {
            if self.cursor_x > 0 {
                self.cursor_x -= 1;
            }
        }
    }

    /// The start of a device control string: it changes nothing.
    pub fn hook(&mut self, _params: &Vec<Vec<u16>>, _intermediates: &[u8], _ignore: bool, _action: char)
        ensures
            *final(self) == *old(self),
    {
    }

    /// A byte of a device control string: it changes nothing.
    pub fn put(&mut self, _byte: u8)
        ensures
            *final(self) == *old(self),
    {
    }

    /// The end of a device control string: it changes nothing.
    pub fn unhook(&mut self)
        ensures
            *final(self) == *old(self),
    {
    }

    /// An operating system command: it changes nothing.
    pub fn osc_dispatch(&mut self, _params: &Vec<Vec<u8>>, _bell_terminated: bool)
        ensures
            *final(self) == *old(self),
    {
    }

    /// Select Graphic Rendition: applies the parameters in order. 0 resets
    /// both colours to the theme's, 30 to 37 and 90 to 97 set the foreground,
    /// any other value is ignored.
    pub fn select_graphic_rendition(&mut self, params: &Vec<Vec<u16>>)
        requires
            old(self).wf(),
        ensures
            final(self).wf(),
            final(self)@ == old(self)@.sgr(groups(params)),
    {
        let ghost before = self@;
        let ghost all = groups(params);
        let mut i: usize = 0;
        while i < params.len()
            invariant
                i <= params.len(),
                all == groups(params),
                self.wf(),
                self@ == before.sgr(all.take(i as int)),
            decreases params.len() - i,
        {
            let code = param_at(params, i);
            proof {
                assert(all.take(i + 1).drop_last() =~= all.take(i as int));
                assert(param(all.take(i + 1), i as int) == param(all, i as int));
            }
            match code {
                Some(p) => {
                    if p == 0 {
                        self.fg = self.theme.default_fg();
                        self.bg = self.theme.bg_color();
                    } else if (30 <= p && p <= 37) || (90 <= p && p <= 97) {
                        self.fg = self.theme.get_ansi_color(p as u8);
                    }
                },
                None => {},
            }
            i += 1;
        }
        assert(all.take(params.len() as int) =~= all);
    }

    /// Erase in Line. The cursor's row is added first where it is missing.
    /// Mode 0 erases from the cursor to the end of the row, mode 1 from the
    /// start of the row to the cursor, mode 2 the whole row. Erased cells are
    /// spaces in the current colours.
    pub fn erase_in_line(&mut self, mode: u16)
        requires
            old(self).wf(),
        ensures
            final(self).wf(),
            final(self)@ == old(self)@.erase_line(mode),
    {
        let fg = self.fg;
        let bg = self.bg;
        let x = self.cursor_x;
        let y = self.cursor_y;
        let width = self.width;
        self.ensure_row(y, fg, bg);
        if mode == 0 {
            self.fill_span(y, x, width);
        } else if mode == 1 {
            self.fill_span(y, 0, x + 1);
        } else if mode == 2 {
            self.fill_span(y, 0, width);
        }
    }

    /// Erase in Display. Mode 2 erases every row, to spaces in the current
    /// colours, and puts the cursor at the top left; no row is removed. Any
    /// other mode does nothing.
    pub fn erase_in_display(&mut self, mode: u16)
        requires
            old(self).wf(),
        ensures
            final(self).wf(),
            final(self)@ == old(self)@.erase_display(mode),
    {
        if mode == 2 {
            let ghost before = self@;
            let width = self.width;
            let mut y: usize = 0;
            while y < self.rows.len()
                invariant
                    self.wf(),
                    width == self.width,
                    y <= self@.rows.len(),
                    self@.rows.len() == before.rows.len(),
                    self@ == (GridState { rows: self@.rows, ..before }),
                    forall|i: int| 0 <= i < y ==> (#[trigger] self@.rows[i]) == blank_row(before.width, before.fg, before.bg),
                decreases self.rows.len() - y,
            {
                let ghost prev = self@;
                self.fill_span(y, 0, width);
                proof {
                    assert(self@.rows[y as int] =~= blank_row(before.width, before.fg, before.bg));
                    assert forall|i: int| 0 <= i < y + 1 implies (#[trigger] self@.rows[i]) == blank_row(
                        before.width,
                        before.fg,
                        before.bg,
                    ) by {
                        if i < y {
                            assert(prev.rows[i] == blank_row(before.width, before.fg, before.bg));
                        }
                    }
                }
                y += 1;
            }
            self.cursor_x = 0;
            self.cursor_y = 0;
            assert(self@.rows =~= before.erase_display(mode).rows);
        }
    }

    /// Cursor Up: moves the cursor up by `n` rows, at most to the top.
    pub fn cursor_up(&mut self, n: usize)
        requires
            old(self).wf(),
        ensures
            final(self).wf(),
            final(self)@ == old(self)@.cursor_up(n as nat),
    {
        self.cursor_y = if n >= self.cursor_y { 0 } else { self.cursor_y - n };
    }

    /// Cursor Down: moves the cursor down by `n` rows and adds the rows that
    /// are missing down to its new row.
    pub fn cursor_down(&mut self, n: usize)
        requires
            old(self).wf(),
        ensures
            final(self).wf(),
            final(self)@ == old(self)@.cursor_down(n as nat),
    {
        let y = if n <= MAX_ROW - self.cursor_y { self.cursor_y + n } else { MAX_ROW };
        let fg = self.fg;
        let bg = self.bg;
        self.cursor_y = y;
        self.ensure_row(y, fg, bg);
    }

    /// Cursor Right: moves the cursor right by `n` columns, at most to the
    /// last column.
    pub fn cursor_right(&mut self, n: usize)
        requires
            old(self).wf(),
        ensures
            final(self).wf(),
            final(self)@ == old(self)@.cursor_right(n as nat),
    {
        self.cursor_x = if n >= self.width - self.cursor_x { self.width - 1 } else { self.cursor_x + n };
    }

    /// Cursor Left: moves the cursor left by `n` columns, at most to the first
    /// column.
    pub fn cursor_left(&mut self, n: usize)
        requires
            old(self).wf(),
        ensures
            final(self).wf(),
            final(self)@ == old(self)@.cursor_left(n as nat),
    {
        self.cursor_x = if n >= self.cursor_x { 0 } else { self.cursor_x - n };
    }

    /// Cursor Position: puts the cursor on row `row` and column `col`, both
    /// counted from 1, and adds the rows that are missing down to that row. A
    /// column beyond the last one is the last one.
    pub fn cursor_to(&mut self, row: usize, col: usize)
        requires
            old(self).wf(),
        ensures
            final(self).wf(),
            final(self)@ == old(self)@.cursor_to(row as nat, col as nat),
    {
        let y = if row >= 1 { row - 1 } else { 0 };
        let x = if col >= 1 { col - 1 } else { 0 };
        let fg = self.fg;
        let bg = self.bg;
        self.cursor_y = y;
        self.cursor_x = if x >= self.width { self.width - 1 } else { x };
        self.ensure_row(y, fg, bg);
    }

    /// Handles a control sequence: its parameter groups, its intermediate
    /// bytes, whether the tokenizer flagged it to be ignored, and its final
    /// character.
    ///
    /// A sequence that is flagged or has an intermediate byte is discarded.
    /// `m` selects colours, `K` and `J` erase, `A`, `B`, `C` and `D` move the
    /// cursor, `H` and `f` position it; any other final character does
    /// nothing.
    pub fn csi_dispatch(&mut self, params: &Vec<Vec<u16>>, intermediates: &[u8], ignore: bool, action: char)
        requires
            old(self).wf(),
        ensures
            final(self).wf(),
            final(self)@ == old(self)@.csi(groups(params), intermediates@, ignore, action),
    {
        if ignore || intermediates.len() > 0 {
            return ;
        }
        if action == 'm' {
            self.select_graphic_rendition(params);
        } else if action == 'K' {
            let mode = param_or_default(params, 0, 0);
            self.erase_in_line(mode);
        } else if action == 'J' {
            let mode = param_or_default(params, 0, 0);
            self.erase_in_display(mode);
        } else if action == 'A' {
            let n = param_or_default(params, 0, 1);
            self.cursor_up(n as usize);
        } else if action == 'B' {
            let n = param_or_default(params, 0, 1);
            self.cursor_down(n as usize);
        } else if action == 'C' {
            let n = param_or_default(params, 0, 1);
            self.cursor_right(n as usize);
        } else if action == 'D' {
            let n = param_or_default(params, 0, 1);
            self.cursor_left(n as usize);
        } else if action == 'H' || action == 'f' {
            let row = param_or_default(params, 0, 1);
            let col = param_or_default(params, 1, 1);
            self.cursor_to(row as usize, col as usize);
        }
    }

    /// Whether every cell of row `y` is a space on the theme's background.
    fn row_blank(&self, y: usize) -> (blank: bool)
        requires
            y < self@.rows.len(),
        ensures
            blank == row_is_blank(self@.rows[y as int], self@.theme.background()),
    {
        let bg = self.theme.bg_color();
        let mut x: usize = 0;
        while x < self.rows[y].len()
            invariant
                y < self.rows@.len(),
                bg == self.theme.background(),
                x <= self.rows@[y as int]@.len(),
                forall|i: int| 0 <= i < x ==> (#[trigger] self.rows@[y as int]@[i]).is_blank(bg),
            decreases self.rows@[y as int]@.len() - x,
        {
            let cell = self.rows[y][x];
            if !(cell.c == ' ' && cell.bg == bg) {
                assert(!self@.rows[y as int][x as int].is_blank(bg));
                return false;
            }
            x += 1;
        }
        true
    }

    /// Drops the blank rows at the end of the grid: rows that hold nothing
    /// but spaces on the theme's background. The first row always stays.
    pub fn trim_trailing_rows(&mut self)
        requires
            old(self).wf(),
        ensures
            final(self).wf(),
            final(self)@ == old(self)@.trimmed(),
    {
        let ghost before = self@;
        let ghost bg = before.theme.background();
        assert(self@.rows =~= before.rows.take(self@.rows.len() as int));
        while self.rows.len() > 1 && self.row_blank(self.rows.len() - 1)
            invariant
                self.wf(),
                before.wf(),
                bg == before.theme.background(),
                self@.rows.len() <= before.rows.len(),
                self@ == (GridState { rows: before.rows.take(self@.rows.len() as int), ..before }),
                trimmed_height(self@.rows, bg) == trimmed_height(before.rows, bg),
            decreases self.rows.len(),
        {
            let ghost prev = self@;
            self.rows.pop();
            proof {
                assert(self@.rows =~= prev.rows.drop_last());
                assert(self@.rows =~= before.rows.take(self@.rows.len() as int));
                assert forall|i: int| 0 <= i < self@.rows.len() implies (#[trigger] self@.rows[i]).len()
                    == self@.width by {
                    assert(prev.rows[i].len() == prev.width);
                }
            }
        }
    }

    /// The number of columns.
    pub fn width(&self) -> (width: usize)
        ensures
            width == self@.width,
    {
        self.width
    }

    /// The number of rows.
    pub fn height(&self) -> (height: usize)
        ensures
            height == self@.rows.len(),
    {
        self.rows.len()
    }

    /// The cursor's column.
    pub fn cursor_x(&self) -> (x: usize)
        ensures
            x == self@.cursor_x,
    {
        self.cursor_x
    }

    /// The cursor's row.
    pub fn cursor_y(&self) -> (y: usize)
        ensures
            y == self@.cursor_y,
    {
        self.cursor_y
    }

    /// The current foreground colour.
    pub fn fg(&self) -> (fg: Color)
        ensures
            fg == self@.fg,
    {
        self.fg
    }

    /// The current background colour.
    pub fn bg(&self) -> (bg: Color)
        ensures
            bg == self@.bg,
    {
        self.bg
    }

    /// The active theme.
    pub fn theme(&self) -> (theme: Theme)
        ensures
            theme == self@.theme,
    {
        self.theme
    }

    /// The rows of the grid, top first, each with its cells from left to
    /// right.
    pub fn rows(&self) -> (rows: &Vec<Vec<Cell>>)
        ensures
            rows@.len() == self@.rows.len(),
            forall|y: int| 0 <= y < rows@.len() ==> (#[trigger] rows@[y])@ == self@.rows[y],
    {
        &self.rows
    }

    /// The cell at column `x` of row `y`, if the grid has one there.
    pub fn cell(&self, x: usize, y: usize) -> (cell: Option<Cell>)
        ensures
            cell == if y < self@.rows.len() && x < self@.rows[y as int].len() {
                Some(self@.rows[y as int][x as int])
            } else {
                None
            },
    {
        if y < self.rows.len() && x < self.rows[y].len() {
            Some(self.rows[y][x])
        } else {
            None
        }
    }
}

} // verus!
