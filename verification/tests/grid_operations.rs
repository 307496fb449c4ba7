use roseterm::cell::{Cell, Color};
use roseterm::grid::{filled_row, fit_row, Terminal};

fn text_of(row: &[Cell]) -> String {
    row.iter().map(|cell| cell.char).collect()
}

fn screen(term: &Terminal) -> Vec<String> {
    term.grid.iter().map(|row| text_of(row)).collect()
}

fn print_str(term: &mut Terminal, text: &str) {
    for c in text.chars() {
        term.print(c);
    }
}

fn check_invariants(term: &Terminal) {
    assert_eq!(term.grid.len(), term.rows);
    for row in &term.grid {
        assert_eq!(row.len(), term.cols);
    }
    assert!(term.cursor_x <= term.cols);
    assert!(term.cursor_y < term.rows);
    assert!(term.scroll_top <= term.scroll_bottom);
    assert!(term.scroll_bottom < term.rows);
    if term.rows >= 2 {
        assert!(term.scroll_top < term.scroll_bottom);
    }
    assert!(term.history.len() <= 10_000);
    assert!(term.scroll_offset <= term.history.len());
}

#[test]
fn new_terminal() {
    let term = Terminal::new(80, 24);
    check_invariants(&term);
    assert_eq!((term.cols, term.rows), (80, 24));
    assert_eq!((term.cursor_x, term.cursor_y), (0, 0));
    assert_eq!((term.scroll_top, term.scroll_bottom), (0, 23));
    assert_eq!(term.scroll_offset, 0);
    assert_eq!(term.current_fg, Color::DefaultFg);
    assert_eq!(term.current_bg, Color::DefaultBg);
    assert!(!term.current_inverse);
    assert!(!term.mouse_reporting);
    assert_eq!(term.title, "RoseTerm");
    assert_eq!(term.selection_start, None);
    assert_eq!(term.selection_end, None);
    assert!(term.history.is_empty());
    for row in &term.grid {
        for cell in row {
            assert_eq!(*cell, Cell { char: ' ', fg: Color::DefaultFg, bg: Color::DefaultBg, inverse: false });
        }
    }
}

#[test]
fn smallest_terminal() {
    let mut term = Terminal::new(1, 1);
    check_invariants(&term);
    print_str(&mut term, "abc");
    check_invariants(&term);
    assert_eq!(screen(&term), vec!["c"]);
    assert_eq!(term.history.len(), 2);
    assert_eq!(text_of(&term.history[0]), "a");
    assert_eq!(text_of(&term.history[1]), "b");
    assert_eq!((term.cursor_x, term.cursor_y), (1, 0));
}

#[test]
fn rows_and_default_cell() {
    assert_eq!(filled_row(Cell::default(), 3), vec![Cell::default(); 3]);
    assert_eq!(filled_row(Cell::default(), 0), vec![]);
    let mut row = vec![Cell { char: 'x', fg: Color::Red, bg: Color::Blue, inverse: true }; 4];
    fit_row(&mut row, 2);
    assert_eq!(text_of(&row), "xx");
    fit_row(&mut row, 5);
    assert_eq!(text_of(&row), "xx   ");
    assert_eq!(row[4], Cell::default());
}

#[test]
fn blank_cell_takes_pen_colors() {
    let mut term = Terminal::new(3, 2);
    term.current_fg = Color::Yellow;
    term.current_bg = Color::Magenta;
    term.current_inverse = true;
    assert_eq!(
        term.blank_cell(),
        Cell { char: ' ', fg: Color::Yellow, bg: Color::Magenta, inverse: true }
    );
}

#[test]
fn print_wraps_lazily() {
    let mut term = Terminal::new(3, 2);
    print_str(&mut term, "abc");
    // The cursor waits past the last column; nothing has wrapped yet.
    assert_eq!((term.cursor_x, term.cursor_y), (3, 0));
    assert_eq!(screen(&term), vec!["abc", "   "]);
    term.print('d');
    assert_eq!((term.cursor_x, term.cursor_y), (1, 1));
    assert_eq!(screen(&term), vec!["abc", "d  "]);
    check_invariants(&term);
}

#[test]
fn print_uses_the_pen() {
    let mut term = Terminal::new(3, 2);
    term.current_fg = Color::Cyan;
    term.current_bg = Color::Red;
    term.current_inverse = true;
    term.print('q');
    assert_eq!(term.grid[0][0], Cell { char: 'q', fg: Color::Cyan, bg: Color::Red, inverse: true });
}

#[test]
fn line_feed_moves_down_then_scrolls() {
    let mut term = Terminal::new(2, 3);
    print_str(&mut term, "ab");
    term.new_line();
    assert_eq!((term.cursor_x, term.cursor_y), (2, 1));
    term.new_line();
    assert_eq!(term.cursor_y, 2);
    assert!(term.history.is_empty());
    term.current_bg = Color::Blue;
    term.new_line();
    assert_eq!(term.cursor_y, 2);
    assert_eq!(term.history.len(), 1);
    assert_eq!(text_of(&term.history[0]), "ab");
    let painted = Cell { char: ' ', fg: Color::DefaultFg, bg: Color::Blue, inverse: false };
    assert_eq!(term.grid[2], vec![painted, painted]);
    check_invariants(&term);
}

#[test]
fn line_feed_below_bottom_margin_stops_at_last_row() {
    let mut term = Terminal::new(2, 5);
    term.csi_dispatch(&[1, 3], &[], false, 'r');
    term.cursor_y = 3;
    term.new_line();
    assert_eq!(term.cursor_y, 4);
    term.new_line();
    assert_eq!(term.cursor_y, 4);
    assert!(term.history.is_empty());
}

#[test]
fn region_with_top_margin_at_zero_feeds_history() {
    let mut term = Terminal::new(2, 4);
    for (y, text) in ["aa", "bb", "cc", "dd"].iter().enumerate() {
        term.cursor_x = 0;
        term.cursor_y = y;
        print_str(&mut term, text);
    }
    term.csi_dispatch(&[1, 2], &[], false, 'r');
    term.cursor_y = 1;
    term.new_line();
    assert_eq!(screen(&term), vec!["bb", "  ", "cc", "dd"]);
    assert_eq!(term.history.len(), 1);
    assert_eq!(text_of(&term.history[0]), "aa");
}

#[test]
fn history_is_bounded_and_evicts_oldest() {
    let mut term = Terminal::new(1, 1);
    for i in 0..10_000u32 {
        term.cursor_x = 0;
        term.print(char::from_u32(0x4e00 + i).unwrap());
        term.cursor_x = 0;
        term.new_line();
    }
    assert_eq!(term.history.len(), 10_000);
    assert_eq!(term.history[0][0].char, '\u{4e00}');
    term.scroll_offset = 10_000;
    term.cursor_x = 0;
    term.print('z');
    term.new_line();
    assert_eq!(term.history.len(), 10_000);
    assert_eq!(term.history[0][0].char, '\u{4e01}');
    assert_eq!(term.history[9_999][0].char, 'z');
    check_invariants(&term);
    term.new_line();
    term.new_line();
    assert_eq!(term.history.len(), 10_000);
    assert_eq!(term.history[0][0].char, '\u{4e03}');
}

#[test]
fn scrolling_the_view() {
    let mut term = Terminal::new(1, 2);
    for _ in 0..6 {
        term.new_line();
    }
    assert_eq!(term.history.len(), 5);
    term.scroll_up(3);
    assert_eq!(term.scroll_offset, 3);
    term.scroll_up(3);
    assert_eq!(term.scroll_offset, 5);
    term.scroll_up(usize::MAX);
    assert_eq!(term.scroll_offset, 5);
    term.scroll_down(2);
    assert_eq!(term.scroll_offset, 3);
    term.scroll_down(10);
    assert_eq!(term.scroll_offset, 0);
    term.scroll_down(usize::MAX);
    assert_eq!(term.scroll_offset, 0);
}

#[test]
fn visible_rows_follow_the_scroll_offset() {
    let mut term = Terminal::new(1, 3);
    for c in "abcdefg".chars() {
        term.cursor_x = 0;
        term.print(c);
        term.cursor_x = 0;
        term.new_line();
    }
    // History holds a..e, the screen f, g and a blank row.
    assert_eq!(term.history.len(), 5);
    assert_eq!(screen(&term), vec!["f", "g", " "]);
    let shown = |term: &Terminal| -> String {
        (0..3).map(|y| term.get_visible_row(y)[0].char).collect()
    };
    assert_eq!(shown(&term), "fg ");
    term.scroll_up(1);
    assert_eq!(shown(&term), "efg");
    term.scroll_up(1);
    assert_eq!(shown(&term), "def");
    term.scroll_up(1);
    assert_eq!(shown(&term), "cde");
    term.scroll_up(5);
    assert_eq!(shown(&term), "abc");
}

#[test]
fn resize_truncates_and_pads_without_reflow() {
    let mut term = Terminal::new(4, 3);
    for (y, text) in ["abcd", "efgh", "ijkl"].iter().enumerate() {
        term.cursor_x = 0;
        term.cursor_y = y;
        print_str(&mut term, text);
    }
    term.csi_dispatch(&[1, 2], &[], false, 'r');
    term.cursor_x = 4;
    term.cursor_y = 2;
    term.current_bg = Color::Red;
    term.resize(2, 4);
    check_invariants(&term);
    assert_eq!((term.cols, term.rows), (2, 4));
    assert_eq!(screen(&term), vec!["ab", "ef", "ij", "  "]);
    assert_eq!(term.grid[3], vec![Cell::default(); 2]);
    assert_eq!((term.cursor_x, term.cursor_y), (1, 2));
    assert_eq!((term.scroll_top, term.scroll_bottom), (0, 3));
    term.resize(5, 2);
    check_invariants(&term);
    assert_eq!(screen(&term), vec!["ab   ", "ef   "]);
    assert_eq!(term.grid[0][4], Cell::default());
    assert_eq!((term.cursor_x, term.cursor_y), (1, 1));
    assert_eq!((term.scroll_top, term.scroll_bottom), (0, 1));
}

#[test]
fn resize_keeps_history_and_resets_the_view() {
    let mut term = Terminal::new(3, 1);
    print_str(&mut term, "abcdefg");
    assert_eq!(term.history.len(), 2);
    term.scroll_up(2);
    term.resize(5, 2);
    assert_eq!(term.scroll_offset, 0);
    assert_eq!(term.history.len(), 2);
    assert_eq!(text_of(&term.history[0]), "abc");
    assert_eq!(term.history[0].len(), 3);
    check_invariants(&term);
}

#[test]
fn resize_there_and_back_keeps_cursor_in_bounds() {
    let mut term = Terminal::new(80, 24);
    term.cursor_x = 80;
    term.cursor_y = 23;
    term.resize(10, 5);
    assert_eq!((term.cursor_x, term.cursor_y), (9, 4));
    check_invariants(&term);
    term.resize(80, 24);
    assert_eq!((term.cursor_x, term.cursor_y), (9, 4));
    check_invariants(&term);
    term.resize(1, 1);
    assert_eq!((term.cursor_x, term.cursor_y), (0, 0));
    assert_eq!((term.scroll_top, term.scroll_bottom), (0, 0));
    check_invariants(&term);
}

#[test]
fn well_formedness_is_decided_by_inspection() {
    let mut term = Terminal::new(4, 3);
    assert!(term.is_well_formed());
    print_str(&mut term, "abcdefghijklmnop");
    assert!(term.is_well_formed());
    term.cursor_x = 5;
    assert!(!term.is_well_formed());
    term.cursor_x = 4;
    assert!(term.is_well_formed());
    term.cursor_y = 3;
    assert!(!term.is_well_formed());
    term.cursor_y = 0;
    term.grid[1].pop();
    assert!(!term.is_well_formed());
    term.grid[1].push(Cell::default());
    term.scroll_top = 2;
    term.scroll_bottom = 2;
    assert!(!term.is_well_formed());
    term.scroll_top = 0;
    term.scroll_offset = term.history.len() + 1;
    assert!(!term.is_well_formed());
    term.scroll_offset = 0;
    term.grid.pop();
    assert!(!term.is_well_formed());
    let single = Terminal::new(1, 1);
    assert!(single.is_well_formed());
}
