use roseterm::cell::{Cell, Color};
use roseterm::effect::Effect;
use roseterm::grid::Terminal;
use roseterm::parser::Decoder;

fn blank() -> Cell {
    Cell::default()
}

fn typed(cols: usize, rows: usize, lines: &[&str]) -> Terminal {
    let mut term = Terminal::new(cols, rows);
    for (y, line) in lines.iter().enumerate() {
        term.cursor_y = y;
        term.cursor_x = 0;
        for c in line.chars() {
            term.print(c);
        }
    }
    term.cursor_x = 0;
    term.cursor_y = 0;
    term
}

fn text_of(row: &[Cell]) -> String {
    row.iter().map(|cell| cell.char).collect()
}

fn screen(term: &Terminal) -> Vec<String> {
    term.grid.iter().map(|row| text_of(row)).collect()
}

fn csi(term: &mut Terminal, params: &[u16], action: char) {
    term.csi_dispatch(params, &[], false, action);
}

#[test]
fn cursor_up_and_down_clamp() {
    let mut term = Terminal::new(10, 5);
    term.cursor_y = 3;
    csi(&mut term, &[2], 'A');
    assert_eq!(term.cursor_y, 1);
    csi(&mut term, &[9], 'A');
    assert_eq!(term.cursor_y, 0);
    csi(&mut term, &[], 'B');
    assert_eq!(term.cursor_y, 1);
    csi(&mut term, &[0], 'B');
    assert_eq!(term.cursor_y, 2);
    csi(&mut term, &[65535], 'B');
    assert_eq!(term.cursor_y, 4);
}

#[test]
fn cursor_forward_and_back_clamp() {
    let mut term = Terminal::new(10, 5);
    csi(&mut term, &[4], 'C');
    assert_eq!(term.cursor_x, 4);
    csi(&mut term, &[40], 'C');
    assert_eq!(term.cursor_x, 9);
    csi(&mut term, &[3], 'D');
    assert_eq!(term.cursor_x, 6);
    csi(&mut term, &[7], 'D');
    assert_eq!(term.cursor_x, 0);
    // From the deferred-wrap column a forward move lands on the last column.
    term.cursor_x = 10;
    csi(&mut term, &[1], 'C');
    assert_eq!(term.cursor_x, 9);
}

#[test]
fn absolute_positions_are_one_based_and_clamped() {
    let mut term = Terminal::new(10, 5);
    csi(&mut term, &[3, 7], 'H');
    assert_eq!((term.cursor_x, term.cursor_y), (6, 2));
    csi(&mut term, &[], 'H');
    assert_eq!((term.cursor_x, term.cursor_y), (0, 0));
    csi(&mut term, &[99, 99], 'f');
    assert_eq!((term.cursor_x, term.cursor_y), (9, 4));
    csi(&mut term, &[4], 'G');
    assert_eq!((term.cursor_x, term.cursor_y), (3, 4));
    csi(&mut term, &[2], 'd');
    assert_eq!((term.cursor_x, term.cursor_y), (3, 1));
    csi(&mut term, &[0], 'G');
    assert_eq!(term.cursor_x, 0);
    csi(&mut term, &[500], 'd');
    assert_eq!(term.cursor_y, 4);
}

#[test]
fn erase_display_from_cursor() {
    let mut term = typed(4, 3, &["abcd", "efgh", "ijkl"]);
    term.cursor_x = 2;
    term.cursor_y = 1;
    csi(&mut term, &[0], 'J');
    assert_eq!(screen(&term), vec!["abcd", "ef  ", "    "]);
    assert_eq!((term.cursor_x, term.cursor_y), (2, 1));
}

#[test]
fn erase_display_without_parameter_is_from_cursor() {
    let mut term = typed(4, 3, &["abcd", "efgh", "ijkl"]);
    term.cursor_x = 1;
    term.cursor_y = 2;
    csi(&mut term, &[], 'J');
    assert_eq!(screen(&term), vec!["abcd", "efgh", "i   "]);
}

#[test]
fn erase_display_all_homes_and_uses_default_cells() {
    let mut term = typed(4, 3, &["abcd", "efgh", "ijkl"]);
    term.cursor_x = 2;
    term.cursor_y = 1;
    term.current_bg = Color::Blue;
    csi(&mut term, &[2], 'J');
    for row in &term.grid {
        for cell in row {
            assert_eq!(*cell, blank());
        }
    }
    assert_eq!((term.cursor_x, term.cursor_y), (0, 0));
}

#[test]
fn erase_line_modes() {
    let mut term = typed(5, 2, &["abcde", "fghij"]);
    term.cursor_x = 2;
    csi(&mut term, &[0], 'K');
    assert_eq!(screen(&term), vec!["ab   ", "fghij"]);

    let mut term = typed(5, 2, &["abcde", "fghij"]);
    term.cursor_x = 2;
    term.cursor_y = 1;
    csi(&mut term, &[1], 'K');
    assert_eq!(screen(&term), vec!["abcde", "  hij"]);

    let mut term = typed(5, 2, &["abcde", "fghij"]);
    term.cursor_x = 2;
    csi(&mut term, &[2], 'K');
    assert_eq!(screen(&term), vec!["     ", "fghij"]);
    assert_eq!(term.cursor_x, 2);
}

#[test]
fn insert_lines_pushes_rows_down_inside_region() {
    let mut term = typed(2, 5, &["aa", "bb", "cc", "dd", "ee"]);
    csi(&mut term, &[2, 4], 'r');
    term.cursor_y = 1;
    csi(&mut term, &[1], 'L');
    assert_eq!(screen(&term), vec!["aa", "  ", "bb", "cc", "ee"]);
    csi(&mut term, &[2], 'L');
    assert_eq!(screen(&term), vec!["aa", "  ", "  ", "  ", "ee"]);
    assert!(term.history.is_empty());
}

#[test]
fn insert_lines_uses_pen_colors() {
    let mut term = typed(2, 3, &["aa", "bb", "cc"]);
    term.current_bg = Color::Green;
    csi(&mut term, &[1], 'L');
    let painted = Cell { char: ' ', fg: Color::DefaultFg, bg: Color::Green, inverse: false };
    assert_eq!(term.grid[0], vec![painted, painted]);
    assert_eq!(text_of(&term.grid[1]), "aa");
    assert_eq!(text_of(&term.grid[2]), "bb");
}

#[test]
fn insert_and_delete_lines_outside_region_do_nothing() {
    let mut term = typed(2, 5, &["aa", "bb", "cc", "dd", "ee"]);
    csi(&mut term, &[2, 4], 'r');
    term.cursor_y = 4;
    csi(&mut term, &[1], 'L');
    csi(&mut term, &[1], 'M');
    assert_eq!(screen(&term), vec!["aa", "bb", "cc", "dd", "ee"]);
    term.cursor_y = 0;
    csi(&mut term, &[3], 'M');
    assert_eq!(screen(&term), vec!["aa", "bb", "cc", "dd", "ee"]);
}

#[test]
fn delete_lines_pulls_rows_up_inside_region() {
    let mut term = typed(2, 5, &["aa", "bb", "cc", "dd", "ee"]);
    csi(&mut term, &[2, 4], 'r');
    term.cursor_y = 1;
    csi(&mut term, &[2], 'M');
    assert_eq!(screen(&term), vec!["aa", "dd", "  ", "  ", "ee"]);
    csi(&mut term, &[60000], 'M');
    assert_eq!(screen(&term), vec!["aa", "  ", "  ", "  ", "ee"]);
}

#[test]
fn delete_chars_pulls_cells_left() {
    let mut term = typed(6, 1, &["abcdef"]);
    term.cursor_x = 1;
    csi(&mut term, &[2], 'P');
    assert_eq!(screen(&term), vec!["adef  "]);
    csi(&mut term, &[100], 'P');
    assert_eq!(screen(&term), vec!["a     "]);
    // In the deferred-wrap column there is nothing to delete.
    let mut term = typed(3, 1, &["abc"]);
    term.cursor_x = 3;
    csi(&mut term, &[1], 'P');
    assert_eq!(screen(&term), vec!["abc"]);
}

#[test]
fn insert_chars_pushes_cells_right() {
    let mut term = typed(6, 1, &["abcdef"]);
    term.cursor_x = 1;
    csi(&mut term, &[2], '@');
    assert_eq!(screen(&term), vec!["a  bcd"]);
    csi(&mut term, &[0], '@');
    assert_eq!(screen(&term), vec!["a   bc"]);
    csi(&mut term, &[9], '@');
    assert_eq!(screen(&term), vec!["a     "]);
    assert_eq!(term.grid[0].len(), 6);
}

#[test]
fn margins_are_set_and_cursor_homed() {
    let mut term = Terminal::new(10, 24);
    term.cursor_x = 5;
    term.cursor_y = 7;
    csi(&mut term, &[5, 20], 'r');
    assert_eq!((term.scroll_top, term.scroll_bottom), (4, 19));
    assert_eq!((term.cursor_x, term.cursor_y), (0, 0));
}

#[test]
fn margins_default_bottom_and_reset_when_invalid() {
    let mut term = Terminal::new(10, 24);
    csi(&mut term, &[5], 'r');
    assert_eq!((term.scroll_top, term.scroll_bottom), (4, 23));
    csi(&mut term, &[10, 10], 'r');
    assert_eq!((term.scroll_top, term.scroll_bottom), (0, 23));
    csi(&mut term, &[5, 20], 'r');
    csi(&mut term, &[12, 3], 'r');
    assert_eq!((term.scroll_top, term.scroll_bottom), (0, 23));
    csi(&mut term, &[3, 99], 'r');
    assert_eq!((term.scroll_top, term.scroll_bottom), (2, 23));
    csi(&mut term, &[], 'r');
    assert_eq!((term.scroll_top, term.scroll_bottom), (0, 23));
}

#[test]
fn private_modes_switch_mouse_reporting() {
    for mode in [1000u16, 1002, 1006, 1015] {
        let mut term = Terminal::new(10, 5);
        term.csi_dispatch(&[mode], b"?", false, 'h');
        assert!(term.mouse_reporting);
        term.csi_dispatch(&[mode], b"?", false, 'l');
        assert!(!term.mouse_reporting);
    }
    let mut term = Terminal::new(10, 5);
    term.csi_dispatch(&[25], b"?", false, 'h');
    assert!(!term.mouse_reporting);
    term.csi_dispatch(&[25, 1006], b"?", false, 'h');
    assert!(term.mouse_reporting);
    term.csi_dispatch(&[25], b"?", false, 'l');
    assert!(term.mouse_reporting);
    // Without the private marker the sequence names other modes.
    let mut term = Terminal::new(10, 5);
    term.csi_dispatch(&[1000], &[], false, 'h');
    assert!(!term.mouse_reporting);
}

#[test]
fn rendition_sets_the_pen() {
    let mut term = Terminal::new(10, 5);
    csi(&mut term, &[31, 44, 7], 'm');
    assert_eq!(term.current_fg, Color::Red);
    assert_eq!(term.current_bg, Color::Blue);
    assert!(term.current_inverse);
    csi(&mut term, &[27], 'm');
    assert!(!term.current_inverse);
    csi(&mut term, &[1], 'm');
    assert_eq!(term.current_fg, Color::BrightRed);
    csi(&mut term, &[1], 'm');
    assert_eq!(term.current_fg, Color::BrightRed);
    csi(&mut term, &[39, 49], 'm');
    assert_eq!(term.current_fg, Color::DefaultFg);
    assert_eq!(term.current_bg, Color::DefaultBg);
    csi(&mut term, &[1], 'm');
    assert_eq!(term.current_fg, Color::DefaultFg);
    csi(&mut term, &[97], 'm');
    assert_eq!(term.current_fg, Color::BrightWhite);
    csi(&mut term, &[90], 'm');
    assert_eq!(term.current_fg, Color::BrightBlack);
    csi(&mut term, &[38, 5, 200], 'm');
    assert_eq!(term.current_fg, Color::BrightBlack);
    csi(&mut term, &[36, 0, 47], 'm');
    assert_eq!(term.current_fg, Color::DefaultFg);
    assert_eq!(term.current_bg, Color::White);
    csi(&mut term, &[], 'm');
    assert_eq!(term.current_bg, Color::DefaultBg);
}

#[test]
fn every_standard_and_bright_color() {
    let standard = [
        Color::Black,
        Color::Red,
        Color::Green,
        Color::Yellow,
        Color::Blue,
        Color::Magenta,
        Color::Cyan,
        Color::White,
    ];
    let bright = [
        Color::BrightBlack,
        Color::BrightRed,
        Color::BrightGreen,
        Color::BrightYellow,
        Color::BrightBlue,
        Color::BrightMagenta,
        Color::BrightCyan,
        Color::BrightWhite,
    ];
    for i in 0..8u16 {
        let mut term = Terminal::new(4, 2);
        csi(&mut term, &[30 + i], 'm');
        assert_eq!(term.current_fg, standard[i as usize]);
        csi(&mut term, &[40 + i], 'm');
        assert_eq!(term.current_bg, standard[i as usize]);
        csi(&mut term, &[1], 'm');
        assert_eq!(term.current_fg, bright[i as usize]);
        csi(&mut term, &[0, 90 + i], 'm');
        assert_eq!(term.current_fg, bright[i as usize]);
        assert_eq!(term.current_bg, Color::DefaultBg);
    }
}

#[test]
fn unknown_sequences_change_nothing() {
    let mut term = typed(4, 2, &["abcd", "efgh"]);
    term.cursor_x = 1;
    csi(&mut term, &[3], 'Z');
    csi(&mut term, &[3], 'n');
    csi(&mut term, &[3], 'h');
    assert_eq!(screen(&term), vec!["abcd", "efgh"]);
    assert_eq!((term.cursor_x, term.cursor_y), (1, 0));
    assert!(!term.mouse_reporting);
}

#[test]
fn c0_controls() {
    let mut term = Terminal::new(20, 3);
    term.cursor_x = 5;
    term.execute(0x08);
    assert_eq!(term.cursor_x, 4);
    term.execute(b'\r');
    assert_eq!(term.cursor_x, 0);
    term.execute(0x08);
    assert_eq!(term.cursor_x, 0);
    term.execute(0x09);
    assert_eq!(term.cursor_x, 8);
    term.execute(0x09);
    assert_eq!(term.cursor_x, 16);
    term.execute(0x09);
    assert_eq!(term.cursor_x, 19);
    term.cursor_x = 3;
    term.execute(b'\n');
    assert_eq!((term.cursor_x, term.cursor_y), (3, 1));
    term.execute(0x07);
    term.execute(0x00);
    assert_eq!((term.cursor_x, term.cursor_y), (3, 1));
}

#[test]
fn osc_sets_title_only_for_commands_zero_and_two() {
    let mut term = Terminal::new(4, 2);
    term.osc_dispatch(&vec![b"0".to_vec(), b"one".to_vec()], true);
    assert_eq!(term.title, "one");
    term.osc_dispatch(&vec![b"2".to_vec(), "zwei é".as_bytes().to_vec()], false);
    assert_eq!(term.title, "zwei é");
    term.osc_dispatch(&vec![b"1".to_vec(), b"no".to_vec()], true);
    term.osc_dispatch(&vec![b"02".to_vec(), b"no".to_vec()], true);
    term.osc_dispatch(&vec![b"0".to_vec()], true);
    term.osc_dispatch(&vec![], true);
    term.osc_dispatch(&vec![b"0".to_vec(), vec![0xff, 0xfe]], true);
    assert_eq!(term.title, "zwei é");
    term.osc_dispatch(&vec![b"0".to_vec(), vec![]], true);
    assert_eq!(term.title, "");
}

#[test]
fn effects_are_applied_in_order() {
    let mut term = Terminal::new(5, 2);
    term.apply_all(&vec![
        Effect::Csi { params: vec![32], values: 1, intermediates: vec![], ignore: false, action: 'm' },
        Effect::Print('a'),
        Effect::Execute(b'\r'),
        Effect::Execute(b'\n'),
        Effect::Print('b'),
        Effect::Osc { strings: vec![b"2".to_vec(), b"t".to_vec()], bell_terminated: true },
    ]);
    assert_eq!(term.grid[0][0], Cell { char: 'a', fg: Color::Green, bg: Color::DefaultBg, inverse: false });
    assert_eq!(term.grid[1][0].char, 'b');
    assert_eq!((term.cursor_x, term.cursor_y), (1, 1));
    assert_eq!(term.title, "t");
    term.apply(&Effect::Print('c'));
    assert_eq!(term.grid[1][1].char, 'c');
}

#[test]
fn decoder_hands_out_first_values_of_parameters() {
    let mut decoder = Decoder::new();
    let mut effects: Vec<Effect> = Vec::new();
    for byte in b"\x1b[12;0;7:9;3x\x1b[?25h" {
        effects.extend(decoder.advance(*byte));
    }
    assert_eq!(
        effects,
        vec![
            Effect::Csi { params: vec![12, 0, 7, 3], values: 5, intermediates: vec![], ignore: false, action: 'x' },
            Effect::Csi { params: vec![25], values: 1, intermediates: vec![b'?'], ignore: false, action: 'h' },
        ]
    );
}

#[test]
fn decoder_keeps_state_between_bytes() {
    let mut decoder = Decoder::new();
    assert_eq!(decoder.advance(0x1b), vec![]);
    assert_eq!(decoder.advance(b'['), vec![]);
    assert_eq!(decoder.advance(b'2'), vec![]);
    assert_eq!(
        decoder.advance(b'J'),
        vec![Effect::Csi { params: vec![2], values: 1, intermediates: vec![], ignore: false, action: 'J' }]
    );
    assert_eq!(decoder.advance(b'q'), vec![Effect::Print('q')]);
    assert_eq!(decoder.advance(b'\n'), vec![Effect::Execute(b'\n')]);
    assert_eq!(decoder.advance(0xe2), vec![]);
    assert_eq!(decoder.advance(0x86), vec![]);
    assert_eq!(decoder.advance(0x92), vec![Effect::Print('→')]);
}

#[test]
fn decoder_hands_out_each_effect_once() {
    let mut decoder = Decoder::new();
    assert_eq!(decoder.advance(b'a'), vec![Effect::Print('a')]);
    // Nothing of the first byte is left for the second call.
    assert_eq!(decoder.advance(0x1b), vec![]);
    assert_eq!(decoder.advance(b'['), vec![]);
    assert_eq!(
        decoder.advance(b'm'),
        vec![Effect::Csi { params: vec![0], values: 1, intermediates: vec![], ignore: false, action: 'm' }]
    );
    assert_eq!(decoder.advance(b'b'), vec![Effect::Print('b')]);
}

#[test]
fn margins_count_subparameters_as_values() {
    let mut term = Terminal::new(10, 24);
    let mut decoder = Decoder::new();
    term.feed(&mut decoder, b"\x1b[5r");
    assert_eq!((term.scroll_top, term.scroll_bottom), (4, 23));
    // A subparameter makes two values of one parameter: the bottom is then
    // taken as given, and an absent second parameter stands for row one.
    term.feed(&mut decoder, b"\x1b[5:2r");
    assert_eq!((term.scroll_top, term.scroll_bottom), (0, 23));
    term.feed(&mut decoder, b"\x1b[5:2;9r");
    assert_eq!((term.scroll_top, term.scroll_bottom), (4, 8));
    assert_eq!((term.cursor_x, term.cursor_y), (0, 0));
}

#[test]
fn counted_dispatch_matters_for_margins_only() {
    let mut term = Terminal::new(10, 24);
    term.csi_dispatch_counted(&[5], 1, &[], false, 'r');
    assert_eq!((term.scroll_top, term.scroll_bottom), (4, 23));
    term.csi_dispatch_counted(&[5], 2, &[], false, 'r');
    assert_eq!((term.scroll_top, term.scroll_bottom), (0, 23));
    term.csi_dispatch_counted(&[3], 7, &[], false, 'B');
    assert_eq!(term.cursor_y, 3);
    term.apply(&Effect::Csi {
        params: vec![2, 6],
        values: 2,
        intermediates: vec![],
        ignore: false,
        action: 'r',
    });
    assert_eq!((term.scroll_top, term.scroll_bottom), (1, 5));
}
