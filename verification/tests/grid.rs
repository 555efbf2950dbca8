use ansi2png::{Cell, Color, Grid, Theme};

fn rgb(r: u8, g: u8, b: u8) -> Color {
    Color { r, g, b }
}

fn light(width: usize) -> Grid {
    Grid::new(width, Theme::Light)
}

fn print_str(grid: &mut Grid, text: &str) {
    for c in text.chars() {
        grid.print(c);
    }
}

fn csi(grid: &mut Grid, params: &[u16], action: char) {
    let groups: Vec<Vec<u16>> = params.iter().map(|p| vec![*p]).collect();
    grid.csi_dispatch(&groups, &[], false, action);
}

fn row_text(grid: &Grid, y: usize) -> String {
    grid.rows()[y].iter().map(|cell| cell.c).collect()
}

fn cursor(grid: &Grid) -> (usize, usize) {
    (grid.cursor_x(), grid.cursor_y())
}

fn light_blank() -> Cell {
    Cell { c: ' ', fg: rgb(0, 0, 0), bg: rgb(255, 255, 255) }
}

#[test]
fn new_grid_has_one_blank_row() {
    let grid = Grid::new(4, Theme::Dark);
    assert_eq!(grid.width(), 4);
    assert_eq!(grid.height(), 1);
    assert_eq!(cursor(&grid), (0, 0));
    assert_eq!(grid.fg(), rgb(255, 255, 255));
    assert_eq!(grid.bg(), rgb(20, 20, 20));
    assert_eq!(grid.theme(), Theme::Dark);
    let blank = Cell { c: ' ', fg: rgb(255, 255, 255), bg: rgb(20, 20, 20) };
    assert_eq!(grid.rows(), &vec![vec![blank; 4]]);
}

#[test]
fn cell_reads_inside_and_outside_the_grid() {
    let mut grid = light(3);
    grid.print('a');
    assert_eq!(grid.cell(0, 0), Some(Cell { c: 'a', fg: rgb(0, 0, 0), bg: rgb(255, 255, 255) }));
    assert_eq!(grid.cell(2, 0), Some(light_blank()));
    assert_eq!(grid.cell(3, 0), None);
    assert_eq!(grid.cell(0, 1), None);
}

#[test]
fn short_ascii_line_stays_on_the_first_row() {
    let mut grid = light(10);
    print_str(&mut grid, "hello");
    assert_eq!(grid.height(), 1);
    assert_eq!(cursor(&grid), (5, 0));
    assert_eq!(row_text(&grid, 0), "hello     ");
}

#[test]
fn line_one_short_of_the_width_does_not_wrap() {
    let mut grid = light(6);
    print_str(&mut grid, "hello");
    assert_eq!(grid.height(), 1);
    assert_eq!(cursor(&grid), (5, 0));
}

#[test]
fn full_line_moves_the_cursor_to_the_next_row_without_adding_it() {
    let mut grid = light(5);
    print_str(&mut grid, "hello");
    assert_eq!(cursor(&grid), (0, 1));
    assert_eq!(grid.height(), 1);
    assert_eq!(row_text(&grid, 0), "hello");
}

#[test]
fn character_after_a_full_line_adds_the_second_row() {
    let mut grid = light(5);
    print_str(&mut grid, "hello!");
    assert_eq!(grid.height(), 2);
    assert_eq!(cursor(&grid), (1, 1));
    assert_eq!(row_text(&grid, 0), "hello");
    assert_eq!(row_text(&grid, 1), "!    ");
}

#[test]
fn width_one_grid_wraps_after_every_character() {
    let mut grid = light(1);
    print_str(&mut grid, "ab");
    assert_eq!(grid.height(), 2);
    assert_eq!(cursor(&grid), (0, 2));
    assert_eq!(row_text(&grid, 0), "a");
    assert_eq!(row_text(&grid, 1), "b");
}

#[test]
fn printed_cell_takes_the_current_colours() {
    let mut grid = Grid::new(4, Theme::Dark);
    csi(&mut grid, &[32], 'm');
    grid.print('x');
    assert_eq!(grid.cell(0, 0), Some(Cell { c: 'x', fg: rgb(13, 188, 121), bg: rgb(20, 20, 20) }));
}

#[test]
fn zero_width_character_is_dropped() {
    let mut grid = light(4);
    grid.print('e');
    grid.print('\u{301}');
    assert_eq!(cursor(&grid), (1, 0));
    assert_eq!(row_text(&grid, 0), "e   ");
}

#[test]
fn control_character_is_dropped_by_print() {
    let mut grid = light(4);
    grid.print('\u{7}');
    assert_eq!(cursor(&grid), (0, 0));
    assert_eq!(row_text(&grid, 0), "    ");
    assert_eq!(grid.height(), 1);
}

#[test]
fn wide_character_takes_two_columns() {
    let mut grid = light(6);
    grid.print('\u{4e16}');
    assert_eq!(cursor(&grid), (2, 0));
    assert_eq!(grid.cell(0, 0).map(|cell| cell.c), Some('\u{4e16}'));
    assert_eq!(grid.cell(1, 0), Some(light_blank()));
}

#[test]
fn wide_character_that_does_not_fit_goes_to_the_next_row() {
    let mut grid = light(3);
    print_str(&mut grid, "ab");
    grid.print('\u{4e16}');
    assert_eq!(grid.height(), 2);
    assert_eq!(row_text(&grid, 0), "ab ");
    assert_eq!(grid.cell(0, 1).map(|cell| cell.c), Some('\u{4e16}'));
    assert_eq!(cursor(&grid), (2, 1));
}

#[test]
fn wide_character_that_ends_the_row_wraps_the_cursor() {
    let mut grid = light(4);
    print_str(&mut grid, "ab");
    grid.print('\u{4e16}');
    assert_eq!(grid.height(), 1);
    assert_eq!(cursor(&grid), (0, 1));
    assert_eq!(grid.cell(2, 0).map(|cell| cell.c), Some('\u{4e16}'));
}

#[test]
fn wide_character_on_a_grid_of_one_column() {
    let mut grid = light(1);
    grid.print('\u{4e16}');
    assert_eq!(grid.height(), 2);
    assert_eq!(row_text(&grid, 0), " ");
    assert_eq!(grid.cell(0, 1).map(|cell| cell.c), Some('\u{4e16}'));
    assert_eq!(cursor(&grid), (0, 2));
}

#[test]
fn place_glyph_with_a_given_width() {
    let mut grid = light(5);
    grid.place_glyph('x', 0);
    assert_eq!(cursor(&grid), (0, 0));
    assert_eq!(row_text(&grid, 0), "     ");
    grid.place_glyph('y', 3);
    assert_eq!(cursor(&grid), (3, 0));
    assert_eq!(row_text(&grid, 0), "y    ");
    grid.place_glyph('z', 3);
    assert_eq!(grid.height(), 2);
    assert_eq!(row_text(&grid, 1), "z    ");
    assert_eq!(cursor(&grid), (3, 1));
    grid.place_glyph('w', 2);
    assert_eq!(row_text(&grid, 1), "z  w ");
    assert_eq!(cursor(&grid), (0, 2));
    assert_eq!(grid.height(), 2);
}

#[test]
fn place_glyph_wider_than_the_grid() {
    let mut grid = light(2);
    grid.place_glyph('x', usize::MAX);
    assert_eq!(grid.height(), 2);
    assert_eq!(row_text(&grid, 0), "  ");
    assert_eq!(row_text(&grid, 1), "x ");
    assert_eq!(cursor(&grid), (0, 2));
}

#[test]
fn print_below_the_grid_adds_rows_in_the_theme_colours() {
    let mut grid = light(3);
    csi(&mut grid, &[31], 'm');
    grid.execute(b'\n');
    grid.execute(b'\n');
    assert_eq!(grid.height(), 1);
    grid.print('x');
    assert_eq!(grid.height(), 3);
    assert_eq!(grid.rows()[1], vec![light_blank(); 3]);
    assert_eq!(grid.cell(0, 2), Some(Cell { c: 'x', fg: rgb(205, 49, 49), bg: rgb(255, 255, 255) }));
    assert_eq!(grid.cell(1, 2), Some(light_blank()));
}

#[test]
fn line_feed_moves_to_the_start_of_the_next_row() {
    let mut grid = light(8);
    print_str(&mut grid, "abc");
    grid.execute(b'\n');
    assert_eq!(cursor(&grid), (0, 1));
    assert_eq!(grid.height(), 1);
}

#[test]
fn carriage_return_moves_to_the_start_of_the_row() {
    let mut grid = light(8);
    print_str(&mut grid, "abc");
    grid.execute(b'\r');
    assert_eq!(cursor(&grid), (0, 0));
    grid.print('X');
    assert_eq!(row_text(&grid, 0), "Xbc     ");
}

#[test]
fn tab_moves_to_the_next_multiple_of_eight() {
    let mut grid = light(40);
    grid.execute(b'\t');
    assert_eq!(cursor(&grid), (8, 0));
    grid.execute(b'\t');
    assert_eq!(cursor(&grid), (16, 0));
    print_str(&mut grid, "abc");
    assert_eq!(cursor(&grid), (19, 0));
    grid.execute(b'\t');
    assert_eq!(cursor(&grid), (24, 0));
    print_str(&mut grid, "1234567");
    assert_eq!(cursor(&grid), (31, 0));
    grid.execute(b'\t');
    assert_eq!(cursor(&grid), (32, 0));
}

#[test]
fn tab_beyond_the_last_column_stops_at_the_last_column() {
    let mut grid = light(10);
    grid.execute(b'\t');
    assert_eq!(cursor(&grid), (8, 0));
    grid.execute(b'\t');
    assert_eq!(cursor(&grid), (9, 0));
    grid.execute(b'\t');
    assert_eq!(cursor(&grid), (9, 0));
}

#[test]
fn tab_to_exactly_the_width_stops_at_the_last_column() {
    let mut grid = light(8);
    grid.execute(b'\t');
    assert_eq!(cursor(&grid), (7, 0));
    let mut narrow = light(5);
    narrow.execute(b'\t');
    assert_eq!(cursor(&narrow), (4, 0));
}

#[test]
fn backspace_moves_one_column_back_and_stops_at_the_first() {
    let mut grid = light(8);
    print_str(&mut grid, "ab");
    grid.execute(8);
    assert_eq!(cursor(&grid), (1, 0));
    grid.execute(8);
    assert_eq!(cursor(&grid), (0, 0));
    grid.execute(8);
    assert_eq!(cursor(&grid), (0, 0));
    assert_eq!(row_text(&grid, 0), "ab      ");
}

#[test]
fn other_control_bytes_do_nothing() {
    let mut grid = light(8);
    print_str(&mut grid, "ab");
    let before = grid.clone();
    for byte in [0u8, 7, 11, 12, 27, 127, 255] {
        grid.execute(byte);
    }
    assert_eq!(grid.rows(), before.rows());
    assert_eq!(cursor(&grid), cursor(&before));
}

#[test]
fn sgr_sets_the_foreground() {
    let mut grid = light(8);
    csi(&mut grid, &[31], 'm');
    assert_eq!(grid.fg(), rgb(205, 49, 49));
    assert_eq!(grid.bg(), rgb(255, 255, 255));
    csi(&mut grid, &[94], 'm');
    assert_eq!(grid.fg(), rgb(59, 142, 234));
}

#[test]
fn sgr_reset_restores_the_theme_colours() {
    for theme in [Theme::Light, Theme::Dark] {
        for code in (30u16..=37).chain(90u16..=97) {
            let mut grid = Grid::new(8, theme);
            csi(&mut grid, &[code], 'm');
            csi(&mut grid, &[0], 'm');
            assert_eq!(grid.fg(), theme.default_fg());
            assert_eq!(grid.bg(), theme.bg_color());
        }
    }
}

#[test]
fn sgr_takes_its_parameters_in_order() {
    let mut grid = light(8);
    csi(&mut grid, &[31, 0, 32], 'm');
    assert_eq!(grid.fg(), rgb(13, 188, 121));
    csi(&mut grid, &[33, 0], 'm');
    assert_eq!(grid.fg(), rgb(0, 0, 0));
}

#[test]
fn sgr_ignores_other_codes() {
    let mut grid = Grid::new(8, Theme::Dark);
    csi(&mut grid, &[35], 'm');
    csi(&mut grid, &[1, 4, 38, 39, 40, 41, 47, 49, 89, 98, 100, 107, 256 + 31, 65535], 'm');
    assert_eq!(grid.fg(), rgb(188, 63, 188));
    assert_eq!(grid.bg(), rgb(20, 20, 20));
}

#[test]
fn sgr_reads_the_first_number_of_each_group() {
    let mut grid = light(8);
    grid.csi_dispatch(&vec![vec![31, 0, 32]], &[], false, 'm');
    assert_eq!(grid.fg(), rgb(205, 49, 49));
    grid.csi_dispatch(&vec![vec![], vec![34, 1]], &[], false, 'm');
    assert_eq!(grid.fg(), rgb(36, 114, 200));
}

#[test]
fn sgr_without_parameters_does_nothing() {
    let mut grid = light(8);
    csi(&mut grid, &[31], 'm');
    csi(&mut grid, &[], 'm');
    assert_eq!(grid.fg(), rgb(205, 49, 49));
}

#[test]
fn flagged_sequence_is_discarded() {
    let mut grid = light(8);
    grid.csi_dispatch(&vec![vec![31]], &[], true, 'm');
    assert_eq!(grid.fg(), rgb(0, 0, 0));
    grid.csi_dispatch(&vec![vec![5], vec![5]], &[], true, 'H');
    assert_eq!(cursor(&grid), (0, 0));
    assert_eq!(grid.height(), 1);
}

#[test]
fn sequence_with_an_intermediate_byte_is_discarded() {
    let mut grid = light(8);
    grid.csi_dispatch(&vec![vec![31]], &[b'?'], false, 'm');
    assert_eq!(grid.fg(), rgb(0, 0, 0));
    grid.csi_dispatch(&vec![vec![3]], &[b' ', b'!'], false, 'B');
    assert_eq!(cursor(&grid), (0, 0));
    assert_eq!(grid.height(), 1);
}

#[test]
fn unknown_final_character_does_nothing() {
    let mut grid = light(8);
    print_str(&mut grid, "abc");
    let before = grid.clone();
    for action in ['@', 'E', 'G', 'L', 'M', 'P', 'S', 'T', 'X', 'd', 'h', 'l', 'n', 'r', 's', 'u', 'a', 'k', 'j'] {
        csi(&mut grid, &[2], action);
    }
    assert_eq!(grid.rows(), before.rows());
    assert_eq!(cursor(&grid), cursor(&before));
    assert_eq!(grid.fg(), before.fg());
    assert_eq!(grid.bg(), before.bg());
}

#[test]
fn erase_in_line_from_the_cursor() {
    let mut grid = light(6);
    print_str(&mut grid, "abcdef");
    csi(&mut grid, &[1, 3], 'H');
    csi(&mut grid, &[0], 'K');
    assert_eq!(row_text(&grid, 0), "ab    ");
    assert_eq!(cursor(&grid), (2, 0));
}

#[test]
fn erase_in_line_defaults_to_mode_0() {
    let mut grid = light(6);
    print_str(&mut grid, "abcdef");
    csi(&mut grid, &[1, 5], 'H');
    csi(&mut grid, &[], 'K');
    assert_eq!(row_text(&grid, 0), "abcd  ");
    grid.csi_dispatch(&vec![vec![]], &[], false, 'K');
    assert_eq!(row_text(&grid, 0), "abcd  ");
}

#[test]
fn erase_in_line_to_the_cursor() {
    let mut grid = light(6);
    print_str(&mut grid, "abcdef");
    csi(&mut grid, &[1, 3], 'H');
    csi(&mut grid, &[1], 'K');
    assert_eq!(row_text(&grid, 0), "   def");
    assert_eq!(cursor(&grid), (2, 0));
}

#[test]
fn erase_in_line_to_the_cursor_on_the_last_column() {
    let mut grid = light(4);
    print_str(&mut grid, "abc");
    csi(&mut grid, &[1, 4], 'H');
    grid.print('d');
    csi(&mut grid, &[1, 4], 'H');
    csi(&mut grid, &[1], 'K');
    assert_eq!(row_text(&grid, 0), "    ");
}

#[test]
fn erase_in_line_whole_row_uses_the_current_colours() {
    let mut grid = light(4);
    print_str(&mut grid, "abcd");
    csi(&mut grid, &[1, 2], 'H');
    csi(&mut grid, &[34], 'm');
    csi(&mut grid, &[2], 'K');
    let erased = Cell { c: ' ', fg: rgb(36, 114, 200), bg: rgb(255, 255, 255) };
    assert_eq!(grid.rows()[0], vec![erased; 4]);
    assert_eq!(cursor(&grid), (1, 0));
    assert_eq!(grid.height(), 1);
}

#[test]
fn erase_in_line_leaves_other_rows() {
    let mut grid = light(3);
    print_str(&mut grid, "abcdefgh");
    csi(&mut grid, &[2, 2], 'H');
    csi(&mut grid, &[2], 'K');
    assert_eq!(row_text(&grid, 0), "abc");
    assert_eq!(row_text(&grid, 1), "   ");
    assert_eq!(row_text(&grid, 2), "gh ");
}

#[test]
fn erase_in_line_of_another_mode_erases_nothing() {
    let mut grid = light(4);
    print_str(&mut grid, "abc");
    csi(&mut grid, &[3], 'K');
    assert_eq!(row_text(&grid, 0), "abc ");
    assert_eq!(grid.height(), 1);
}

#[test]
fn erase_in_line_adds_the_missing_rows_in_the_current_colours() {
    let mut grid = light(2);
    csi(&mut grid, &[32], 'm');
    grid.execute(b'\n');
    grid.execute(b'\n');
    csi(&mut grid, &[7], 'K');
    assert_eq!(grid.height(), 3);
    let green = Cell { c: ' ', fg: rgb(13, 188, 121), bg: rgb(255, 255, 255) };
    assert_eq!(grid.rows()[0], vec![light_blank(); 2]);
    assert_eq!(grid.rows()[1], vec![green; 2]);
    assert_eq!(grid.rows()[2], vec![green; 2]);
    assert_eq!(cursor(&grid), (0, 2));
}

#[test]
fn erase_in_display_clears_every_row_and_homes_the_cursor() {
    let mut grid = Grid::new(3, Theme::Dark);
    print_str(&mut grid, "abcdefg");
    csi(&mut grid, &[91], 'm');
    assert_eq!(grid.height(), 3);
    csi(&mut grid, &[2], 'J');
    assert_eq!(grid.height(), 3);
    assert_eq!(cursor(&grid), (0, 0));
    let erased = Cell { c: ' ', fg: rgb(241, 76, 76), bg: rgb(20, 20, 20) };
    assert_eq!(grid.rows(), &vec![vec![erased; 3]; 3]);
    assert_eq!(grid.fg(), rgb(241, 76, 76));
}

#[test]
fn erase_in_display_of_other_modes_does_nothing() {
    let mut grid = light(3);
    print_str(&mut grid, "abcd");
    let before = grid.clone();
    csi(&mut grid, &[], 'J');
    csi(&mut grid, &[0], 'J');
    csi(&mut grid, &[1], 'J');
    csi(&mut grid, &[3], 'J');
    assert_eq!(grid.rows(), before.rows());
    assert_eq!(cursor(&grid), (1, 1));
}

#[test]
fn cursor_up_stops_at_the_top() {
    let mut grid = light(4);
    csi(&mut grid, &[6], 'B');
    assert_eq!(cursor(&grid), (0, 6));
    csi(&mut grid, &[], 'A');
    assert_eq!(cursor(&grid), (0, 5));
    csi(&mut grid, &[2], 'A');
    assert_eq!(cursor(&grid), (0, 3));
    csi(&mut grid, &[0], 'A');
    assert_eq!(cursor(&grid), (0, 3));
    csi(&mut grid, &[9], 'A');
    assert_eq!(cursor(&grid), (0, 0));
    csi(&mut grid, &[65535], 'A');
    assert_eq!(cursor(&grid), (0, 0));
    assert_eq!(grid.height(), 7);
}

#[test]
fn cursor_down_adds_rows_in_the_current_colours() {
    let mut grid = light(2);
    csi(&mut grid, &[35], 'm');
    csi(&mut grid, &[], 'B');
    assert_eq!(cursor(&grid), (0, 1));
    assert_eq!(grid.height(), 2);
    csi(&mut grid, &[3], 'B');
    assert_eq!(cursor(&grid), (0, 4));
    assert_eq!(grid.height(), 5);
    csi(&mut grid, &[0], 'B');
    assert_eq!(cursor(&grid), (0, 4));
    assert_eq!(grid.height(), 5);
    let magenta = Cell { c: ' ', fg: rgb(188, 63, 188), bg: rgb(255, 255, 255) };
    assert_eq!(grid.rows()[0], vec![light_blank(); 2]);
    for y in 1..5 {
        assert_eq!(grid.rows()[y], vec![magenta; 2]);
    }
}

#[test]
fn cursor_down_after_line_feeds_adds_the_rows_in_between() {
    let mut grid = light(2);
    grid.execute(b'\n');
    grid.execute(b'\n');
    csi(&mut grid, &[1], 'B');
    assert_eq!(cursor(&grid), (0, 3));
    assert_eq!(grid.height(), 4);
}

#[test]
fn cursor_right_stops_at_the_last_column() {
    let mut grid = light(10);
    csi(&mut grid, &[], 'C');
    assert_eq!(cursor(&grid), (1, 0));
    csi(&mut grid, &[3], 'C');
    assert_eq!(cursor(&grid), (4, 0));
    csi(&mut grid, &[0], 'C');
    assert_eq!(cursor(&grid), (4, 0));
    csi(&mut grid, &[5], 'C');
    assert_eq!(cursor(&grid), (9, 0));
    csi(&mut grid, &[1], 'C');
    assert_eq!(cursor(&grid), (9, 0));
    csi(&mut grid, &[65535], 'C');
    assert_eq!(cursor(&grid), (9, 0));
}

#[test]
fn cursor_left_stops_at_the_first_column() {
    let mut grid = light(10);
    print_str(&mut grid, "abcdef");
    csi(&mut grid, &[], 'D');
    assert_eq!(cursor(&grid), (5, 0));
    csi(&mut grid, &[2], 'D');
    assert_eq!(cursor(&grid), (3, 0));
    csi(&mut grid, &[0], 'D');
    assert_eq!(cursor(&grid), (3, 0));
    csi(&mut grid, &[3], 'D');
    assert_eq!(cursor(&grid), (0, 0));
    csi(&mut grid, &[1], 'D');
    assert_eq!(cursor(&grid), (0, 0));
}

#[test]
fn cursor_position_grows_the_grid() {
    let mut grid = light(20);
    csi(&mut grid, &[5, 10], 'H');
    assert_eq!(cursor(&grid), (9, 4));
    assert_eq!(grid.height(), 5);
    for y in 0..5 {
        assert_eq!(grid.rows()[y], vec![light_blank(); 20]);
    }
}

#[test]
fn cursor_position_on_a_taller_grid_removes_nothing() {
    let mut grid = light(12);
    csi(&mut grid, &[8], 'B');
    assert_eq!(grid.height(), 9);
    csi(&mut grid, &[5, 10], 'f');
    assert_eq!(cursor(&grid), (9, 4));
    assert_eq!(grid.height(), 9);
}

#[test]
fn cursor_position_defaults_to_the_top_left() {
    let mut grid = light(8);
    print_str(&mut grid, "abcdefghij");
    csi(&mut grid, &[], 'H');
    assert_eq!(cursor(&grid), (0, 0));
    csi(&mut grid, &[2], 'H');
    assert_eq!(cursor(&grid), (0, 1));
    csi(&mut grid, &[0, 0], 'H');
    assert_eq!(cursor(&grid), (0, 0));
    grid.csi_dispatch(&vec![vec![], vec![4]], &[], false, 'H');
    assert_eq!(cursor(&grid), (3, 0));
    assert_eq!(grid.height(), 2);
}

#[test]
fn cursor_position_beyond_the_last_column_is_the_last_column() {
    let mut grid = light(5);
    csi(&mut grid, &[5, 10], 'H');
    assert_eq!(cursor(&grid), (4, 4));
    csi(&mut grid, &[1, 5], 'H');
    assert_eq!(cursor(&grid), (4, 0));
    csi(&mut grid, &[1, 6], 'H');
    assert_eq!(cursor(&grid), (4, 0));
    csi(&mut grid, &[1, 65535], 'H');
    assert_eq!(cursor(&grid), (4, 0));
}

#[test]
fn cursor_position_reaches_the_largest_row() {
    let mut grid = light(1);
    csi(&mut grid, &[65535, 1], 'H');
    assert_eq!(cursor(&grid), (0, 65534));
    assert_eq!(grid.height(), 65535);
}

#[test]
fn cursor_moves_called_directly() {
    let mut grid = light(4);
    grid.cursor_to(3, 2);
    assert_eq!(cursor(&grid), (1, 2));
    assert_eq!(grid.height(), 3);
    grid.cursor_down(2);
    assert_eq!(cursor(&grid), (1, 4));
    assert_eq!(grid.height(), 5);
    grid.cursor_up(1);
    grid.cursor_right(7);
    assert_eq!(cursor(&grid), (3, 3));
    grid.cursor_left(usize::MAX);
    assert_eq!(cursor(&grid), (0, 3));
    grid.cursor_right(usize::MAX);
    assert_eq!(cursor(&grid), (3, 3));
    grid.cursor_up(usize::MAX);
    assert_eq!(cursor(&grid), (3, 0));
    grid.cursor_to(0, usize::MAX);
    assert_eq!(cursor(&grid), (3, 0));
}

#[test]
fn cursor_far_below_stays_on_the_largest_row() {
    let mut grid = light(2);
    grid.cursor_up(usize::MAX);
    assert_eq!(cursor(&grid), (0, 0));
    let mut other = light(2);
    other.execute(b'\n');
    assert_eq!(cursor(&other), (0, 1));
}

#[test]
fn erasers_called_directly() {
    let mut grid = light(3);
    print_str(&mut grid, "abcdef");
    grid.cursor_to(2, 2);
    grid.erase_in_line(0);
    assert_eq!(row_text(&grid, 1), "d  ");
    grid.erase_in_display(2);
    assert_eq!(row_text(&grid, 0), "   ");
    assert_eq!(cursor(&grid), (0, 0));
    assert_eq!(grid.height(), 2);
    grid.select_graphic_rendition(&vec![vec![93]]);
    assert_eq!(grid.fg(), rgb(200, 200, 0));
}

#[test]
fn other_tokenizer_callbacks_do_nothing() {
    let mut grid = light(4);
    print_str(&mut grid, "abcde");
    let before = grid.clone();
    grid.hook(&vec![vec![1]], &[b'$'], false, 'q');
    grid.put(b'x');
    grid.put(b'\n');
    grid.unhook();
    grid.osc_dispatch(&vec![b"0".to_vec(), b"title".to_vec()], true);
    assert_eq!(grid.rows(), before.rows());
    assert_eq!(cursor(&grid), cursor(&before));
    assert_eq!(grid.fg(), before.fg());
    assert_eq!(grid.bg(), before.bg());
}

#[test]
fn trim_keeps_the_only_row() {
    let mut grid = light(4);
    grid.trim_trailing_rows();
    assert_eq!(grid.height(), 1);
    assert_eq!(grid.rows()[0], vec![light_blank(); 4]);
}

#[test]
fn trim_drops_blank_rows_from_the_end() {
    let mut grid = light(4);
    print_str(&mut grid, "ab");
    csi(&mut grid, &[6, 1], 'H');
    assert_eq!(grid.height(), 6);
    grid.trim_trailing_rows();
    assert_eq!(grid.height(), 1);
    assert_eq!(row_text(&grid, 0), "ab  ");
    assert_eq!(cursor(&grid), (0, 5));
}

#[test]
fn trim_stops_at_the_last_row_with_text() {
    let mut grid = light(4);
    csi(&mut grid, &[3, 2], 'H');
    grid.print('x');
    csi(&mut grid, &[3], 'B');
    assert_eq!(grid.height(), 6);
    grid.trim_trailing_rows();
    assert_eq!(grid.height(), 3);
    assert_eq!(row_text(&grid, 0), "    ");
    assert_eq!(row_text(&grid, 1), "    ");
    assert_eq!(row_text(&grid, 2), " x  ");
}

#[test]
fn trim_keeps_the_first_row_even_if_blank() {
    let mut grid = Grid::new(3, Theme::Dark);
    csi(&mut grid, &[4], 'B');
    assert_eq!(grid.height(), 5);
    grid.trim_trailing_rows();
    assert_eq!(grid.height(), 1);
}

#[test]
fn trim_counts_rows_in_other_foregrounds_as_blank() {
    let mut grid = light(3);
    grid.print('a');
    csi(&mut grid, &[31], 'm');
    csi(&mut grid, &[2], 'B');
    grid.trim_trailing_rows();
    assert_eq!(grid.height(), 1);
}

#[test]
fn trim_is_idempotent() {
    let mut grid = light(3);
    print_str(&mut grid, "abcd");
    csi(&mut grid, &[5], 'B');
    grid.trim_trailing_rows();
    let once = grid.clone();
    grid.trim_trailing_rows();
    assert_eq!(grid.rows(), once.rows());
    assert_eq!(grid.height(), 2);
}

#[test]
fn every_row_keeps_the_width() {
    let mut grid = light(7);
    print_str(&mut grid, "the quick brown fox jumps over the lazy dog");
    csi(&mut grid, &[12, 30], 'H');
    csi(&mut grid, &[2], 'K');
    csi(&mut grid, &[4], 'B');
    grid.execute(b'\t');
    grid.print('\u{4e16}');
    csi(&mut grid, &[2], 'J');
    print_str(&mut grid, "again");
    grid.trim_trailing_rows();
    assert!(grid.height() >= 1);
    assert_eq!(grid.rows().len(), grid.height());
    for row in grid.rows() {
        assert_eq!(row.len(), 7);
    }
    assert!(grid.cursor_x() < 7);
}
