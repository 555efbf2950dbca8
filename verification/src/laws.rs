//! Laws of the grid: what holds of every grid and every stream of events.

use vstd::prelude::*;
use crate::cell::{blank_row, row_is_blank, Cell};
use crate::event::{prints, Event};
use crate::model::{trimmed_height, GridState};
use crate::theme::{Color, Theme};
use crate::width::is_printable_ascii;

verus! {

/// Adding rows keeps a grid well formed, keeps the rows it had, and changes
/// nothing but the number of rows.
pub proof fn lemma_grown(s: GridState, y: nat, fg: Color, bg: Color)
    requires
        s.wf(),
    ensures
        s.grown(y, fg, bg).wf(),
        s.grown(y, fg, bg).rows.len() == if s.rows.len() > y { s.rows.len() } else { y + 1 },
        s.rows.len() > y ==> s.grown(y, fg, bg) == s,
        forall|i: int| 0 <= i < s.rows.len() ==> s.grown(y, fg, bg).rows[i] == s.rows[i],
{
    let g = s.grown(y, fg, bg);
    assert forall|i: int| 0 <= i < g.rows.len() implies (#[trigger] g.rows[i]).len() == g.width by {
        if i < s.rows.len() {
            assert(s.rows[i].len() == s.width);
        }
    }
    if s.rows.len() > y {
        assert(g.rows =~= s.rows);
    }
}

/// Writing a character keeps a grid well formed and removes no row.
pub proof fn lemma_placed_wf(s: GridState, c: char, w: nat)
    requires
        s.wf(),
    ensures
        s.placed(c, w).wf(),
        s.placed(c, w).rows.len() >= s.rows.len(),
        s.placed(c, w).width == s.width,
        s.placed(c, w).theme == s.theme,
{
    if w > 0 {
        let wraps = s.cursor_x + w > s.width;
        let x: nat = if wraps { 0 } else { s.cursor_x };
        let y = if wraps { GridState::row_below(s.cursor_y) } else { s.cursor_y };
        let g = s.grown(y, s.theme.foreground(), s.theme.background());
        lemma_grown(s, y, s.theme.foreground(), s.theme.background());
        let written = g.with_cell(x, y, Cell { c, fg: s.fg, bg: s.bg });
        assert forall|i: int| 0 <= i < written.rows.len() implies (#[trigger] written.rows[i]).len()
            == written.width by {
            assert(g.rows[i].len() == g.width);
        }
    }
}

/// The SGR parameters change nothing but the two current colours.
pub proof fn lemma_sgr_changes_colours_only(s: GridState, params: Seq<Seq<u16>>)
    ensures
        s.sgr(params) == (GridState { fg: s.sgr(params).fg, bg: s.sgr(params).bg, ..s }),
    decreases params.len(),
{
    if params.len() > 0 {
        lemma_sgr_changes_colours_only(s, params.drop_last());
    }
}

/// Erasing a part of a row keeps a grid well formed and the number of its
/// rows.
pub proof fn lemma_erase_span_wf(s: GridState, y: int, from: int, to: int)
    requires
        s.wf(),
        0 <= y < s.rows.len(),
    ensures
        s.erase_span(y, from, to).wf(),
        s.erase_span(y, from, to).rows.len() == s.rows.len(),
{
    let t = s.erase_span(y, from, to);
    assert forall|i: int| 0 <= i < t.rows.len() implies (#[trigger] t.rows[i]).len() == t.width by {
        assert(s.rows[i].len() == s.width);
    }
}

/// A control sequence keeps a grid well formed, its width and its theme, and
/// removes no row.
pub proof fn lemma_csi_wf(
    s: GridState,
    params: Seq<Seq<u16>>,
    intermediates: Seq<u8>,
    ignore: bool,
    action: char,
)
    requires
        s.wf(),
    ensures
        s.csi(params, intermediates, ignore, action).wf(),
        s.csi(params, intermediates, ignore, action).rows.len() >= s.rows.len(),
        s.csi(params, intermediates, ignore, action).width == s.width,
        s.csi(params, intermediates, ignore, action).theme == s.theme,
{
    let t = s.csi(params, intermediates, ignore, action);
    if ignore || intermediates.len() > 0 {
    } else if action == 'm' {
        lemma_sgr_changes_colours_only(s, params);
    } else if action == 'K' {
        lemma_grown(s, s.cursor_y, s.fg, s.bg);
        let g = s.grown(s.cursor_y, s.fg, s.bg);
        lemma_erase_span_wf(g, s.cursor_y as int, s.cursor_x as int, s.width as int);
        lemma_erase_span_wf(g, s.cursor_y as int, 0, s.cursor_x as int + 1);
        lemma_erase_span_wf(g, s.cursor_y as int, 0, s.width as int);
    } else if action == 'J' {
    } else if action == 'A' {
    } else if action == 'B' {
        lemma_grown(s, t.cursor_y, s.fg, s.bg);
    } else if action == 'C' {
    } else if action == 'D' {
    } else if action == 'H' || action == 'f' {
        lemma_grown(s, t.cursor_y, s.fg, s.bg);
    }
}

/// Every event keeps a grid well formed: it still has at least one row, every
/// row is still `width` cells long and the cursor is on a column of the grid.
/// No event changes the width or the theme, and none removes a row.
pub proof fn lemma_apply_wf(s: GridState, event: Event)
    requires
        s.wf(),
    ensures
        s.apply(event).wf(),
        s.apply(event).rows.len() >= s.rows.len(),
        s.apply(event).width == s.width,
        s.apply(event).theme == s.theme,
{
    match event {
        Event::Print(c) => {
            lemma_placed_wf(s, c, crate::width::glyph_width(c));
        },
        Event::Execute(byte) => {},
        Event::Csi { params, intermediates, ignore, action } => {
            lemma_csi_wf(s, crate::grid::groups(&params), intermediates@, ignore, action);
        },
    }
}

/// A stream of events keeps a grid well formed, its width and its theme, and
/// removes no row: the grid only grows.
pub proof fn lemma_run_wf(s: GridState, events: Seq<Event>)
    requires
        s.wf(),
    ensures
        s.run(events).wf(),
        s.run(events).rows.len() >= s.rows.len(),
        s.run(events).width == s.width,
        s.run(events).theme == s.theme,
    decreases events.len(),
{
    if events.len() > 0 {
        lemma_run_wf(s, events.drop_last());
        lemma_apply_wf(s.run(events.drop_last()), events.last());
    }
}

/// The fresh grid is well formed.
pub proof fn lemma_initial_wf(width: nat, theme: Theme)
    requires
        width >= 1,
    ensures
        GridState::initial(width, theme).wf(),
{
}

/// A line of printable ASCII characters that is no longer than the grid is
/// wide, printed on a fresh grid, fills the start of the first row, in the
/// theme's colours, and adds no row. The cursor ends behind the last
/// character; behind a line that is as long as the grid is wide, that is the
/// start of the second row.
pub proof fn lemma_printable_line(width: nat, theme: Theme, text: Seq<char>)
    requires
        width >= 1,
        text.len() <= width,
        forall|i: int| 0 <= i < text.len() ==> is_printable_ascii(#[trigger] text[i]),
    ensures
        ({
            let g = GridState::initial(width, theme).run(prints(text));
            &&& g.wf()
            &&& g.width == width
            &&& g.theme == theme
            &&& g.fg == theme.foreground()
            &&& g.bg == theme.background()
            &&& g.rows.len() == 1
            &&& g.rows[0].len() == width
            &&& forall|x: int|
                0 <= x < text.len() ==> (#[trigger] g.rows[0][x]) == (Cell {
                    c: text[x],
                    fg: theme.foreground(),
                    bg: theme.background(),
                })
            &&& forall|x: int|
                text.len() <= x < width ==> (#[trigger] g.rows[0][x]) == Cell::blank(
                    theme.foreground(),
                    theme.background(),
                )
            &&& text.len() < width ==> g.cursor_x == text.len() && g.cursor_y == 0
            &&& text.len() == width ==> g.cursor_x == 0 && g.cursor_y == 1
        }),
    decreases text.len(),
{
    let start = GridState::initial(width, theme);
    if text.len() == 0 {
        assert(start.run(prints(text)) == start);
    } else {
        let head = text.drop_last();
        let c = text.last();
        lemma_printable_line(width, theme, head);
        assert(prints(text).drop_last() =~= prints(head));
        let prev = start.run(prints(head));
        let g = prev.apply(Event::Print(c));
        assert(g == start.run(prints(text)));
        assert(is_printable_ascii(text[text.len() - 1]));
        assert(g == prev.placed(c, 1));
        lemma_grown(prev, 0, theme.foreground(), theme.background());
        lemma_placed_wf(prev, c, 1);
        assert(g.rows[0] == prev.rows[0].update(head.len() as int, Cell { c, fg: theme.foreground(), bg: theme.background() }));
        assert forall|x: int| 0 <= x < text.len() implies (#[trigger] g.rows[0][x]) == (Cell {
            c: text[x],
            fg: theme.foreground(),
            bg: theme.background(),
        }) by {
            if x < head.len() {
                assert(prev.rows[0][x] == (Cell { c: head[x], fg: theme.foreground(), bg: theme.background() }));
            }
        }
        assert forall|x: int| text.len() <= x < width implies (#[trigger] g.rows[0][x]) == Cell::blank(
            theme.foreground(),
            theme.background(),
        ) by {
            assert(prev.rows[0][x] == Cell::blank(theme.foreground(), theme.background()));
        }
    }
}

} // verus!

verus! {

/// A line of printable ASCII characters that is no longer than the grid is
/// wide, printed on a fresh grid, leaves the grid with one row, and a line
/// that is shorter leaves the cursor on that row, behind the last character.
pub proof fn lemma_short_line_does_not_wrap(width: nat, theme: Theme, text: Seq<char>)
    requires
        width >= 1,
        text.len() <= width,
        forall|i: int| 0 <= i < text.len() ==> is_printable_ascii(#[trigger] text[i]),
    ensures
        GridState::initial(width, theme).run(prints(text)).height() == 1,
        text.len() < width ==> GridState::initial(width, theme).run(prints(text)).cursor_y == 0,
        text.len() < width ==> GridState::initial(width, theme).run(prints(text)).cursor_x == text.len(),
{
    lemma_printable_line(width, theme, text);
}

/// A line of printable ASCII characters that is exactly as long as the grid is
/// wide, printed on a fresh grid, leaves the cursor at the start of the second
/// row. That row does not exist yet: the grid still has one row, and the next
/// printable character adds the second row and stands at its start.
pub proof fn lemma_full_line_wraps(width: nat, theme: Theme, text: Seq<char>, next: char)
    requires
        width >= 1,
        text.len() == width,
        forall|i: int| 0 <= i < text.len() ==> is_printable_ascii(#[trigger] text[i]),
        is_printable_ascii(next),
    ensures
        GridState::initial(width, theme).run(prints(text)).cursor_x == 0,
        GridState::initial(width, theme).run(prints(text)).cursor_y == 1,
        GridState::initial(width, theme).run(prints(text)).height() == 1,
        GridState::initial(width, theme).run(prints(text)).print(next).height() == 2,
        GridState::initial(width, theme).run(prints(text)).print(next).rows[1][0] == (Cell {
            c: next,
            fg: theme.foreground(),
            bg: theme.background(),
        }),
{
    lemma_printable_line(width, theme, text);
    let g = GridState::initial(width, theme).run(prints(text));
    lemma_grown(g, 1, theme.foreground(), theme.background());
}

/// An SGR reset after any SGR sequence restores both current colours to the
/// theme's, and the two sequences together change nothing else.
pub proof fn lemma_sgr_reset_restores_theme(s: GridState, colouring: Seq<Seq<u16>>)
    ensures
        s.csi(colouring, seq![], false, 'm').csi(seq![seq![0u16]], seq![], false, 'm') == (GridState {
            fg: s.theme.foreground(),
            bg: s.theme.background(),
            ..s
        }),
{
    lemma_sgr_changes_colours_only(s, colouring);
    let t = s.sgr(colouring);
    let reset = seq![seq![0u16]];
    assert(reset.drop_last().len() == 0);
    assert(t.sgr(reset.drop_last()) == t);
    assert(crate::model::param(reset, 0) == Some(0u16));
}

/// An erase in line of mode 2 leaves the cursor's row, which it adds where it
/// is missing, with nothing but spaces in the colours that were current
/// before it, whatever the theme's colours are. It moves nothing.
pub proof fn lemma_erase_line_clears_row(s: GridState)
    requires
        s.wf(),
    ensures
        ({
            let t = s.csi(seq![seq![2u16]], seq![], false, 'K');
            &&& t.wf()
            &&& t.rows.len() > s.cursor_y
            &&& t.rows[s.cursor_y as int].len() == s.width
            &&& forall|x: int|
                0 <= x < s.width ==> (#[trigger] t.rows[s.cursor_y as int][x]) == Cell::blank(s.fg, s.bg)
            &&& t.cursor_x == s.cursor_x
            &&& t.cursor_y == s.cursor_y
            &&& t.fg == s.fg
            &&& t.bg == s.bg
        }),
{
    let params = seq![seq![2u16]];
    assert(crate::model::param_or(params, 0, 0) == 2);
    lemma_grown(s, s.cursor_y, s.fg, s.bg);
    let g = s.grown(s.cursor_y, s.fg, s.bg);
    lemma_erase_span_wf(g, s.cursor_y as int, 0, s.width as int);
    assert(g.rows[s.cursor_y as int].len() == g.width);
}

/// An erase in display of mode 2 leaves every row with nothing but spaces in
/// the current colours and the cursor at the top left. The grid keeps its
/// rows: they are cleared, not removed.
pub proof fn lemma_erase_display_clears_rows(s: GridState)
    requires
        s.wf(),
    ensures
        ({
            let t = s.csi(seq![seq![2u16]], seq![], false, 'J');
            &&& t.wf()
            &&& t.height() == s.height()
            &&& forall|y: int, x: int|
                0 <= y < s.height() && 0 <= x < s.width ==> (#[trigger] t.rows[y][x]) == Cell::blank(
                    s.fg,
                    s.bg,
                )
            &&& t.cursor_x == 0
            &&& t.cursor_y == 0
        }),
{
    let params = seq![seq![2u16]];
    assert(crate::model::param_or(params, 0, 0) == 2);
}

/// The cursor position sequence for row 5 and column 10, on a grid of at
/// least ten columns, puts the cursor on column 9 of row 4, counted from 0,
/// and leaves the grid with at least five rows: those it had, and below them
/// the empty rows that were missing.
pub proof fn lemma_cursor_position_grows(s: GridState)
    requires
        s.wf(),
        s.width >= 10,
    ensures
        ({
            let t = s.csi(seq![seq![5u16], seq![10u16]], seq![], false, 'H');
            &&& t.wf()
            &&& t.cursor_x == 9
            &&& t.cursor_y == 4
            &&& t.height() >= 5
            &&& t.height() == if s.height() < 5 { 5 } else { s.height() }
            &&& forall|y: int| 0 <= y < s.height() ==> t.rows[y] == s.rows[y]
            &&& forall|y: int| s.height() <= y < t.height() ==> t.rows[y] == blank_row(s.width, s.fg, s.bg)
        }),
{
    let params = seq![seq![5u16], seq![10u16]];
    assert(crate::model::param_or(params, 0, 1) == 5);
    assert(crate::model::param_or(params, 1, 1) == 10);
    lemma_grown(s, 4, s.fg, s.bg);
}

/// What is left of the rows once the blank rows at their end are dropped: at
/// least one row where there was one; every row that was dropped is blank;
/// and the last row that is left is not blank, unless it is the only one.
pub proof fn lemma_trimmed_height(rows: Seq<Seq<Cell>>, bg: Color)
    requires
        rows.len() >= 1,
    ensures
        1 <= trimmed_height(rows, bg) <= rows.len(),
        forall|y: int| trimmed_height(rows, bg) <= y < rows.len() ==> row_is_blank(#[trigger] rows[y], bg),
        trimmed_height(rows, bg) > 1 ==> !row_is_blank(rows[trimmed_height(rows, bg) - 1], bg),
    decreases rows.len(),
{
    if rows.len() > 1 && row_is_blank(rows.last(), bg) {
        let front = rows.drop_last();
        lemma_trimmed_height(front, bg);
        assert forall|y: int| trimmed_height(rows, bg) <= y < rows.len() implies row_is_blank(
            #[trigger] rows[y],
            bg,
        ) by {
            if y < front.len() {
                assert(front[y] == rows[y]);
            }
        }
        assert(front[trimmed_height(rows, bg) - 1] == rows[trimmed_height(rows, bg) - 1]);
    }
}

/// Trimming drops blank rows from the end of the grid, and nothing else: the
/// rows that are left are the first rows of the grid, unchanged; every row
/// that was dropped held nothing but spaces on the theme's background; the
/// last row that is left is not such a row, unless it is the only one. At
/// least one row always remains.
pub proof fn lemma_trimmed(s: GridState)
    requires
        s.wf(),
    ensures
        s.trimmed().wf(),
        1 <= s.trimmed().height() <= s.height(),
        s.trimmed().rows == s.rows.take(s.trimmed().height() as int),
        forall|y: int|
            s.trimmed().height() <= y < s.height() ==> row_is_blank(#[trigger] s.rows[y], s.theme.background()),
        s.trimmed().height() > 1 ==> !row_is_blank(s.trimmed().rows.last(), s.theme.background()),
        s.trimmed() == (GridState { rows: s.trimmed().rows, ..s }),
{
    lemma_trimmed_height(s.rows, s.theme.background());
    let t = s.trimmed();
    assert forall|y: int| 0 <= y < t.rows.len() implies (#[trigger] t.rows[y]).len() == t.width by {
        assert(s.rows[y].len() == s.width);
    }
}

/// The finished grid for any stream of events is well formed and has at
/// least one row; for the empty stream it has exactly one.
pub proof fn lemma_rendered_keeps_a_row(events: Seq<Event>, width: nat, theme: Theme)
    requires
        width >= 1,
    ensures
        GridState::rendered(events, width, theme).wf(),
        GridState::rendered(events, width, theme).height() >= 1,
        events.len() == 0 ==> GridState::rendered(events, width, theme).height() == 1,
{
    let start = GridState::initial(width, theme);
    lemma_run_wf(start, events);
    lemma_trimmed(start.run(events));
}

/// The SGR parameters leave the current background the theme's.
pub proof fn lemma_sgr_keeps_background(s: GridState, params: Seq<Seq<u16>>)
    requires
        s.bg == s.theme.background(),
    ensures
        s.sgr(params).bg == s.theme.background(),
    decreases params.len(),
{
    if params.len() > 0 {
        lemma_sgr_keeps_background(s, params.drop_last());
        lemma_sgr_changes_colours_only(s, params.drop_last());
    }
}

/// No event paints a background: a grid that stands on the theme's
/// background still does after any event.
pub proof fn lemma_apply_keeps_background(s: GridState, event: Event)
    requires
        s.wf(),
        s.on_theme_background(),
    ensures
        s.apply(event).on_theme_background(),
{
    let t = s.apply(event);
    lemma_apply_wf(s, event);
    match event {
        Event::Print(c) => {
            let w = crate::width::glyph_width(c);
            if w > 0 {
                let wraps = s.cursor_x + w > s.width;
                let y = if wraps { GridState::row_below(s.cursor_y) } else { s.cursor_y };
                lemma_grown(s, y, s.theme.foreground(), s.theme.background());
            }
        },
        Event::Execute(byte) => {},
        Event::Csi { params, intermediates, ignore, action } => {
            let p = crate::grid::groups(&params);
            if ignore || intermediates@.len() > 0 {
            } else if action == 'm' {
                lemma_sgr_keeps_background(s, p);
                lemma_sgr_changes_colours_only(s, p);
            } else if action == 'K' {
                lemma_grown(s, s.cursor_y, s.fg, s.bg);
            } else if action == 'B' || action == 'H' || action == 'f' {
                lemma_grown(s, t.cursor_y, s.fg, s.bg);
            }
        },
    }
}

/// A grid made from a fresh one by any stream of events stands on the
/// theme's background, and so does the finished grid: a cell differs from an
/// empty one of the theme only in its character and its foreground.
pub proof fn lemma_rendered_on_theme_background(events: Seq<Event>, width: nat, theme: Theme)
    requires
        width >= 1,
    ensures
        GridState::initial(width, theme).run(events).on_theme_background(),
        GridState::rendered(events, width, theme).on_theme_background(),
    decreases events.len(),
{
    let start = GridState::initial(width, theme);
    if events.len() > 0 {
        lemma_rendered_on_theme_background(events.drop_last(), width, theme);
        lemma_run_wf(start, events.drop_last());
        lemma_apply_keeps_background(start.run(events.drop_last()), events.last());
    }
    lemma_run_wf(start, events);
    lemma_trimmed(start.run(events));
}

/// Rendering is a function of the stream of events, the width and the theme:
/// two grids that were each made by rendering the same stream with the same
/// width and theme are equal, cell for cell, cursor and colours included.
pub proof fn lemma_render_is_deterministic(
    first: GridState,
    second: GridState,
    events: Seq<Event>,
    width: nat,
    theme: Theme,
)
    requires
        first == GridState::rendered(events, width, theme),
        second == GridState::rendered(events, width, theme),
    ensures
        first == second,
        first.rows == second.rows,
{
}

} // verus!
