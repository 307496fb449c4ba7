use roseterm::cell::{Cell, Color};
use roseterm::coordinator::{Action, Coordinator, InputSnapshot, Wheel};
use roseterm::grid::Terminal;
use roseterm::parser::Decoder;

fn fed(bytes: &[u8]) -> Terminal {
    let mut term = Terminal::new(80, 24);
    let mut decoder = Decoder::new();
    term.feed(&mut decoder, bytes);
    term
}

fn blank() -> Cell {
    Cell { char: ' ', fg: Color::DefaultFg, bg: Color::DefaultBg, inverse: false }
}

fn row_is_blank(row: &[Cell]) -> bool {
    row.iter().all(|cell| *cell == blank())
}

fn quiet_input() -> InputSnapshot {
    InputSnapshot {
        held_control: false,
        held_shift: false,
        held_alt: false,
        text: Vec::new(),
        pressed: Vec::new(),
        held: Vec::new(),
        mouse: None,
        left_pressed: false,
        left_released: false,
        right_pressed: false,
        right_released: false,
        wheel: Wheel::Still,
    }
}

#[test]
fn text_then_line_feed() {
    let term = fed(b"hi\n");
    assert_eq!(term.grid[0][0].char, 'h');
    assert_eq!(term.grid[0][1].char, 'i');
    assert_eq!(term.grid[0][2], blank());
    // A line feed moves down and keeps the column.
    assert_eq!((term.cursor_x, term.cursor_y), (2, 1));
    assert!(term.history.is_empty());
}

#[test]
fn text_then_carriage_return_and_line_feed() {
    let term = fed(b"hi\r\n");
    assert_eq!(term.grid[0][0].char, 'h');
    assert_eq!(term.grid[0][1].char, 'i');
    assert_eq!((term.cursor_x, term.cursor_y), (0, 1));
    assert!(term.history.is_empty());
}

#[test]
fn red_glyph_then_default_glyph() {
    let term = fed(b"\x1b[31mX\x1b[0mY");
    assert_eq!(
        term.grid[0][0],
        Cell { char: 'X', fg: Color::Red, bg: Color::DefaultBg, inverse: false }
    );
    assert_eq!(
        term.grid[0][1],
        Cell { char: 'Y', fg: Color::DefaultFg, bg: Color::DefaultBg, inverse: false }
    );
    assert_eq!((term.cursor_x, term.cursor_y), (2, 0));
}

#[test]
fn twenty_five_line_feeds() {
    let term = fed(&[b'\n'; 25]);
    assert_eq!((term.cursor_x, term.cursor_y), (0, 23));
    assert_eq!(term.history.len(), 2);
    assert_eq!(term.history[0].len(), 80);
    assert!(row_is_blank(&term.history[0]));
    assert!(row_is_blank(&term.history[1]));
    assert_eq!(term.grid.len(), 24);
}

#[test]
fn clear_then_place_glyph() {
    let term = fed(b"junk\x1b[2J\x1b[5;10HZ");
    for (y, row) in term.grid.iter().enumerate() {
        for (x, cell) in row.iter().enumerate() {
            if (x, y) == (9, 4) {
                assert_eq!(cell.char, 'Z');
            } else {
                assert_eq!(*cell, blank());
            }
        }
    }
    assert_eq!((term.cursor_x, term.cursor_y), (10, 4));
}

#[test]
fn mouse_press_is_reported_once_enabled() {
    let mut coordinator = Coordinator::new(80, 24);
    coordinator.on_pty_data(b"\x1b[?1000h");
    assert!(coordinator.terminal.mouse_reporting);
    let mut input = quiet_input();
    input.mouse = Some((3, 7));
    input.left_pressed = true;
    let actions = coordinator.handle_input(&input, 0);
    assert_eq!(actions, vec![Action::Write(b"\x1b[<0;4;8M".to_vec())]);
    assert_eq!(coordinator.terminal.selection_start, None);
}

#[test]
fn line_feed_at_bottom_margin_scrolls_region_only() {
    let term = fed(b"top\x1b[5;20r\x1b[20;1HA\n");
    assert_eq!((term.scroll_top, term.scroll_bottom), (4, 19));
    // The row that held the glyph moved up by one; a blank row came in at
    // the bottom margin.
    assert_eq!(term.grid[18][0].char, 'A');
    assert!(row_is_blank(&term.grid[19]));
    // Rows outside the region stay, and nothing is retired.
    assert_eq!(term.grid[0][0].char, 't');
    assert!(term.history.is_empty());
    assert_eq!((term.cursor_x, term.cursor_y), (1, 19));
    assert_eq!(term.grid.len(), 24);
}

#[test]
fn utf8_glyphs_are_decoded() {
    let term = fed("é→".as_bytes());
    assert_eq!(term.grid[0][0].char, 'é');
    assert_eq!(term.grid[0][1].char, '→');
    assert_eq!(term.cursor_x, 2);
}

#[test]
fn title_is_set_by_osc() {
    let term = fed(b"\x1b]0;hello\x07");
    assert_eq!(term.title, "hello");
    let term = fed(b"\x1b]2;two words\x1b\\");
    assert_eq!(term.title, "two words");
    let term = fed(b"\x1b]1;icon\x07");
    assert_eq!(term.title, "RoseTerm");
    let term = fed("\x1b]0;päron\x07".as_bytes());
    assert_eq!(term.title, "päron");
}

#[test]
fn parameters_reach_the_grid() {
    let term = fed(b"\x1b[7;3H");
    assert_eq!((term.cursor_x, term.cursor_y), (2, 6));
    let term = fed(b"\x1b[10B\x1b[4C");
    assert_eq!((term.cursor_x, term.cursor_y), (4, 10));
}

#[test]
fn arbitrary_bytes_keep_the_invariants() {
    let mut term = Terminal::new(7, 3);
    let mut decoder = Decoder::new();
    let mut seed: u32 = 12345;
    let alphabet: &[u8] = b"\x1b[]?;0123456789ABCDHJKLMP@rhlmfGd\n\r\x08\x09aZ\x07\xff\xc3\xa9:";
    let mut bytes: Vec<u8> = Vec::new();
    for _ in 0..20000 {
        seed = seed.wrapping_mul(1664525).wrapping_add(1013904223);
        bytes.push(alphabet[(seed >> 16) as usize % alphabet.len()]);
    }
    term.feed(&mut decoder, &bytes);
    assert_eq!(term.grid.len(), term.rows);
    for row in &term.grid {
        assert_eq!(row.len(), term.cols);
    }
    assert!(term.cursor_x <= term.cols);
    assert!(term.cursor_y < term.rows);
    assert!(term.scroll_top < term.scroll_bottom);
    assert!(term.scroll_bottom < term.rows);
    assert!(term.history.len() <= 10_000);
    assert!(term.scroll_offset <= term.history.len());
}
