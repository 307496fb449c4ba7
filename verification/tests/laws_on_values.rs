use roseterm::cell::{Cell, Color};
use roseterm::grid::Terminal;

fn print_str(term: &mut Terminal, text: &str) {
    for c in text.chars() {
        term.print(c);
    }
}

fn text_of(row: &[Cell]) -> String {
    row.iter().map(|cell| cell.char).collect()
}

#[test]
fn crlf_on_last_row_retires_one_row_with_default_margins() {
    let mut term = Terminal::new(3, 2);
    print_str(&mut term, "abcde");
    assert_eq!(term.cursor_y, 1);
    term.execute(b'\r');
    term.execute(b'\n');
    assert_eq!(term.history.len(), 1);
    assert_eq!(text_of(&term.history[0]), "abc");
    assert_eq!((term.cursor_x, term.cursor_y), (0, 1));
}

#[test]
fn crlf_on_last_row_retires_nothing_with_other_margins() {
    let mut term = Terminal::new(3, 4);
    term.csi_dispatch(&[2, 4], &[], false, 'r');
    term.cursor_y = 3;
    term.execute(b'\r');
    term.execute(b'\n');
    assert!(term.history.is_empty());
    let mut term = Terminal::new(3, 4);
    term.csi_dispatch(&[1, 3], &[], false, 'r');
    term.cursor_y = 3;
    term.execute(b'\r');
    term.execute(b'\n');
    assert!(term.history.is_empty());
    assert_eq!(term.cursor_y, 3);
}

#[test]
fn cursor_after_glyphs_that_fit() {
    for n in [0usize, 1, 2, 4, 5, 6, 9, 11, 13, 14] {
        let mut term = Terminal::new(5, 3);
        for _ in 0..n {
            term.print('x');
        }
        if n == 0 || n % 5 != 0 {
            assert_eq!((term.cursor_x, term.cursor_y), (n % 5, n / 5));
        } else {
            // A full row leaves the cursor waiting past its last column.
            assert_eq!((term.cursor_x, term.cursor_y), (5, n / 5 - 1));
        }
        assert!(term.history.is_empty());
    }
}

#[test]
fn glyphs_beyond_the_screen_scroll_it() {
    // 5 columns, 3 rows: 15 cells.
    for (n, scrolled) in [(15usize, 0usize), (16, 1), (20, 1), (21, 2), (25, 2), (26, 3), (38, 5)] {
        let mut term = Terminal::new(5, 3);
        let glyphs: Vec<char> = (0..n).map(|i| char::from_u32(0x100 + i as u32).unwrap()).collect();
        for c in &glyphs {
            term.print(*c);
        }
        assert_eq!(scrolled, (n - 15 + 4) / 5);
        assert_eq!(term.history.len(), scrolled);
        assert_eq!(term.cursor_y, 2);
        assert_eq!(term.cursor_x, (n - 1) % 5 + 1);
        for i in scrolled * 5..n {
            assert_eq!(term.grid[i / 5 - scrolled][i % 5].char, glyphs[i]);
        }
        for i in 0..scrolled * 5 {
            assert_eq!(term.history[i / 5][i % 5].char, glyphs[i]);
        }
    }
}

#[test]
fn reset_then_red_then_glyph() {
    let mut term = Terminal::new(4, 2);
    term.current_fg = Color::Green;
    term.current_bg = Color::Yellow;
    term.current_inverse = true;
    term.cursor_x = 4;
    term.csi_dispatch(&[0], &[], false, 'm');
    term.csi_dispatch(&[31], &[], false, 'm');
    term.print('X');
    assert_eq!(term.grid[1][0], Cell { char: 'X', fg: Color::Red, bg: Color::DefaultBg, inverse: false });
}

#[test]
fn erase_all_blanks_every_cell() {
    let mut term = Terminal::new(4, 3);
    term.current_bg = Color::Cyan;
    print_str(&mut term, "abcdefghij");
    term.csi_dispatch(&[2], &[], false, 'J');
    for row in &term.grid {
        assert_eq!(*row, vec![Cell::default(); 4]);
    }
    assert_eq!((term.cursor_x, term.cursor_y), (0, 0));
}

#[test]
fn full_width_selection_is_the_text_of_the_rows() {
    let mut term = Terminal::new(4, 3);
    print_str(&mut term, "ab  cdefg");
    term.start_selection(0, 0);
    term.update_selection(3, 2);
    assert_eq!(term.get_selected_text(), "ab  \ncdef\ng   ");
    term.update_selection(3, 1);
    assert_eq!(term.get_selected_text(), "ab  \ncdef");
}
