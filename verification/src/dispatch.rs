//! The effect operations: what a printed glyph, a C0 control, a control
//! sequence and an operating system command do to a terminal.

use vstd::prelude::*;
use crate::cell::{Cell, Color};
use crate::control::{
    bright_color, brightened, is_mouse_mode, is_private, names_mouse_mode, param, selector,
    standard_color,
};
use crate::grid::{filled_row, Terminal};
use crate::state::{max_int, min_int, row_of, TerminalState};

verus! {

/// The byte strings that `strings` holds.
pub open spec fn byte_strings(strings: Seq<Vec<u8>>) -> Seq<Seq<u8>> {
    Seq::new(strings.len(), |i: int| strings[i]@)
}

/// The `i`-th parameter as a count or a one-based position.
pub fn count_param(params: &[u16], i: usize) -> (n: usize)
    ensures
        n == param(params@, i as int),
        1 <= n <= 65535,
{
    if i < params.len() && params[i] != 0 {
        params[i] as usize
    } else {
        1
    }
}

/// The first parameter as a selector.
pub fn selector_param(params: &[u16]) -> (mode: u16)
    ensures
        mode == selector(params@),
{
    if params.len() > 0 {
        params[0]
    } else {
        0
    }
}

/// Whether the sequence carries the private marker `?`.
pub fn has_private_marker(intermediates: &[u8]) -> (private: bool)
    ensures
        private == is_private(intermediates@),
{
    intermediates.len() > 0 && intermediates[0] == 0x3f
}

/// Whether any parameter names a mouse-reporting mode.
pub fn any_mouse_mode(params: &[u16]) -> (found: bool)
    ensures
        found == names_mouse_mode(params@),
{
    let mut i: usize = 0;
    while i < params.len()
        invariant
            i <= params.len(),
            forall|j: int| 0 <= j < i ==> !is_mouse_mode(#[trigger] params@[j]),
        decreases params.len() - i,
    {
        let mode: u16 = params[i];
        if mode == 1000 || mode == 1002 || mode == 1006 || mode == 1015 {
            return true;
        }
        i += 1;
    }
    false
}

/// The standard palette entry with index `i`.
pub fn standard(i: u16) -> (c: Color)
    ensures
        c == standard_color(i as int),
{
    if i == 0 {
        Color::Black
    } else if i == 1 {
        Color::Red
    } else if i == 2 {
        Color::Green
    } else if i == 3 {
        Color::Yellow
    } else if i == 4 {
        Color::Blue
    } else if i == 5 {
        Color::Magenta
    } else if i == 6 {
        Color::Cyan
    } else {
        Color::White
    }
}

/// The bright palette entry with index `i`.
pub fn bright(i: u16) -> (c: Color)
    ensures
        c == bright_color(i as int),
{
    if i == 0 {
        Color::BrightBlack
    } else if i == 1 {
        Color::BrightRed
    } else if i == 2 {
        Color::BrightGreen
    } else if i == 3 {
        Color::BrightYellow
    } else if i == 4 {
        Color::BrightBlue
    } else if i == 5 {
        Color::BrightMagenta
    } else if i == 6 {
        Color::BrightCyan
    } else {
        Color::BrightWhite
    }
}

/// The bright twin of a standard color; any other color is its own.
pub fn brighten(c: Color) -> (b: Color)
    ensures
        b == brightened(c),
{
    match c {
        Color::Black => Color::BrightBlack,
        Color::Red => Color::BrightRed,
        Color::Green => Color::BrightGreen,
        Color::Yellow => Color::BrightYellow,
        Color::Blue => Color::BrightBlue,
        Color::Magenta => Color::BrightMagenta,
        Color::Cyan => Color::BrightCyan,
        Color::White => Color::BrightWhite,
        _ => c,
    }
}

impl Terminal {
    /// A C0 control: line feed, carriage return, backspace and horizontal
    /// tab act; every other byte is ignored.
    pub fn execute(&mut self, byte: u8)
        requires
            old(self).wf(),
        ensures
            final(self).wf(),
            final(self)@ == old(self)@.execute(byte),
    {
        if byte == 0x0a {
            self.new_line();
        } else if byte == 0x0d {
            self.cursor_x = 0;
        } else if byte == 0x08 {
            if self.cursor_x > 0 {
                self.cursor_x -= 1;
            }
        } else if byte == 0x09 {
            let stop: usize = self.cursor_x / 8 + 1;
            if stop > (self.cols - 1) / 8 {
                self.cursor_x = self.cols - 1;
            } else {
                self.cursor_x = stop * 8;
            }
        }
    }

    /// Moves the cursor up `n` rows, stopping at the first row.
    fn cursor_up(&mut self, n: usize)
        requires
            old(self).wf(),
        ensures
            final(self).wf(),
            final(self)@ == (TerminalState {
                cursor_y: max_int(old(self)@.cursor_y - n, 0),
                ..old(self)@
            }),
    {
        self.cursor_y = if n >= self.cursor_y { 0 } else { self.cursor_y - n };
    }

    /// Moves the cursor down `n` rows, stopping at the last row.
    fn cursor_down(&mut self, n: usize)
        requires
            old(self).wf(),
        ensures
            final(self).wf(),
            final(self)@ == (TerminalState {
                cursor_y: min_int(old(self)@.cursor_y + n, old(self)@.rows - 1),
                ..old(self)@
            }),
    {
        let room: usize = self.rows - 1 - self.cursor_y;
        self.cursor_y = if n >= room { self.rows - 1 } else { self.cursor_y + n };
    }

    /// Moves the cursor right `n` columns, stopping at the last column.
    fn cursor_forward(&mut self, n: usize)
        requires
            old(self).wf(),
        ensures
            final(self).wf(),
            final(self)@ == (TerminalState {
                cursor_x: min_int(old(self)@.cursor_x + n, old(self)@.cols - 1),
                ..old(self)@
            }),
    {
        if self.cursor_x >= self.cols - 1 {
            self.cursor_x = self.cols - 1;
        } else {
            let room: usize = self.cols - 1 - self.cursor_x;
            self.cursor_x = if n >= room { self.cols - 1 } else { self.cursor_x + n };
        }
    }

    /// Moves the cursor left `n` columns, stopping at the first column.
    fn cursor_back(&mut self, n: usize)
        requires
            old(self).wf(),
        ensures
            final(self).wf(),
            final(self)@ == (TerminalState {
                cursor_x: max_int(old(self)@.cursor_x - n, 0),
                ..old(self)@
            }),
    {
        self.cursor_x = if n >= self.cursor_x { 0 } else { self.cursor_x - n };
    }

    /// Sets the margins and homes the cursor.
    fn set_margins(&mut self, params: &[u16], values: usize)
        requires
            old(self).wf(),
        ensures
            final(self).wf(),
            final(self)@ == old(self)@.set_margins(params@, values as int),
    {
        let last: usize = self.rows - 1;
        let first: usize = count_param(params, 0) - 1;
        let top: usize = if first < last { first } else { last };
        let bottom: usize = if values > 1 {
            let second: usize = count_param(params, 1) - 1;
            if second < last { second } else { last }
        } else {
            last
        };
        if bottom <= top {
            self.scroll_top = 0;
            self.scroll_bottom = last;
        } else {
            self.scroll_top = top;
            self.scroll_bottom = bottom;
        }
        self.cursor_x = 0;
        self.cursor_y = 0;
    }

    /// One rendition parameter applied to the pen.
    fn render(&mut self, p: u16)
        requires
            old(self).wf(),
        ensures
            final(self).wf(),
            final(self)@ == old(self)@.render(p),
    {
        if p == 0 {
            self.current_fg = Color::DefaultFg;
            self.current_bg = Color::DefaultBg;
            self.current_inverse = false;
        } else if p == 1 {
            self.current_fg = brighten(self.current_fg);
        } else if p == 7 {
            self.current_inverse = true;
        } else if p == 27 {
            self.current_inverse = false;
        } else if 30 <= p && p <= 37 {
            self.current_fg = standard(p - 30);
        } else if p == 39 {
            self.current_fg = Color::DefaultFg;
        } else if 40 <= p && p <= 47 {
            self.current_bg = standard(p - 40);
        } else if p == 49 {
            self.current_bg = Color::DefaultBg;
        } else if 90 <= p && p <= 97 {
            self.current_fg = bright(p - 90);
        }
    }

    /// Select graphic rendition.
    fn select_rendition(&mut self, params: &[u16])
        requires
            old(self).wf(),
        ensures
            final(self).wf(),
            final(self)@ == old(self)@.select_rendition(params@),
    {
        if params.len() == 0 {
            self.render(0);
            return;
        }
        let mut i: usize = 0;
        while i < params.len()
            invariant
                i <= params.len(),
                self.wf(),
                self@ == old(self)@.render_all(params@.take(i as int)),
            decreases params.len() - i,
        {
            assert(params@.take(i + 1).drop_last() == params@.take(i as int));
            self.render(params[i]);
            i += 1;
        }
        assert(params@.take(i as int) == params@);
    }

    /// Replaces the cells of `row` in columns `from` up to, not including,
    /// `to` by default cells.
    fn clear_span(&mut self, row: usize, from: usize, to: usize)
        requires
            old(self).wf(),
            row < old(self).rows,
            from <= to <= old(self).cols,
        ensures
            final(self).wf(),
            final(self)@ == (TerminalState {
                screen: old(self)@.erased(|r: int, x: int| r == row && from <= x < to),
                ..old(self)@
            }),
    {
        let ghost before = self@;
        let mut x: usize = from;
        assert(self@.screen =~~= before.erased(|r: int, c: int| r == row && from <= c < x));
        while x < to
            invariant
                before.wf(),
                self.wf(),
                row < self.rows,
                from <= x <= to <= self.cols,
                self@ == (TerminalState {
                    screen: before.erased(|r: int, c: int| r == row && from <= c < x),
                    ..before
                }),
            decreases to - x,
        {
            let ghost prev = self@;
            assert(prev.screen[row as int].len() == self.cols);
            self.grid[row][x] = Cell::default();
            assert(self@.screen =~~= prev.screen.update(
                row as int,
                prev.screen[row as int].update(x as int, crate::cell::default_cell()),
            ));
            x += 1;
            assert(self@.screen =~~= before.erased(|r: int, c: int| r == row && from <= c < x));
        }
        assert(self@.screen =~~= before.erased(|r: int, c: int| r == row && from <= c < to));
    }

    /// Erase in display.
    fn erase_display(&mut self, mode: u16)
        requires
            old(self).wf(),
        ensures
            final(self).wf(),
            final(self)@ == old(self)@.erase_display(mode as int),
    {
        let ghost before = self@;
        if mode == 2 {
            let mut y: usize = 0;
            assert(self@.screen =~~= before.erased(|r: int, c: int| r < y));
            while y < self.rows
                invariant
                    before.wf(),
                    self.wf(),
                    y <= self.rows,
                    self@ == (TerminalState {
                        screen: before.erased(|r: int, c: int| r < y),
                        ..before
                    }),
                decreases self.rows - y,
            {
                self.clear_span(y, 0, self.cols);
                y += 1;
                assert(self@.screen =~~= before.erased(|r: int, c: int| r < y));
            }
            self.cursor_x = 0;
            self.cursor_y = 0;
            assert(self@.screen =~~= before.erased(|r: int, c: int| true));
        } else {
            let cx: usize = self.cursor_x;
            let cy: usize = self.cursor_y;
            self.clear_span(cy, cx, self.cols);
            let mut y: usize = cy + 1;
            assert(self@.screen =~~= before.erased(
                |r: int, c: int| (r == cy && c >= cx) || (cy < r < y),
            ));
            while y < self.rows
                invariant
                    before.wf(),
                    self.wf(),
                    cy < y <= self.rows,
                    self@ == (TerminalState {
                        screen: before.erased(
                            |r: int, c: int| (r == cy && c >= cx) || (cy < r < y),
                        ),
                        ..before
                    }),
                decreases self.rows - y,
            {
                self.clear_span(y, 0, self.cols);
                y += 1;
                assert(self@.screen =~~= before.erased(
                    |r: int, c: int| (r == cy && c >= cx) || (cy < r < y),
                ));
            }
            assert(self@.screen =~~= before.erase_display(mode as int).screen);
        }
    }

    /// Erase in line.
    fn erase_line(&mut self, mode: u16)
        requires
            old(self).wf(),
        ensures
            final(self).wf(),
            final(self)@ == old(self)@.erase_line(mode as int),
    {
        let ghost before = self@;
        if mode == 2 {
            self.clear_span(self.cursor_y, 0, self.cols);
        } else if mode == 1 {
            self.clear_span(self.cursor_y, 0, self.cursor_x);
        } else {
            self.clear_span(self.cursor_y, self.cursor_x, self.cols);
        }
        assert(self@.screen =~~= before.erase_line(mode as int).screen);
    }

    /// Inserts `count` blank rows at the cursor's row.
    fn insert_lines(&mut self, count: usize)
        requires
            old(self).wf(),
        ensures
            final(self).wf(),
            final(self)@ == old(self)@.insert_lines(count as int),
    {
        let ghost before = self@;
        if self.scroll_top <= self.cursor_y && self.cursor_y <= self.scroll_bottom {
            let height: usize = self.scroll_bottom - self.cursor_y + 1;
            let n: usize = if count < height { count } else { height };
            let mut k: usize = 0;
            assert(self@.screen =~~= before.insert_lines(k as int).screen);
            while k < n
                invariant
                    before.wf(),
                    before.cursor_in_region(),
                    self.wf(),
                    k <= n,
                    self@ == (TerminalState {
                        screen: before.insert_lines(k as int).screen,
                        ..before
                    }),
                decreases n - k,
            {
                let ghost prev = self@;
                self.grid.remove(self.scroll_bottom);
                let blank = filled_row(self.blank_cell(), self.cols);
                self.grid.insert(self.cursor_y, blank);
                assert(self@.screen =~~= prev.screen.remove(prev.scroll_bottom).insert(
                    prev.cursor_y,
                    row_of(prev.blank_cell(), prev.cols),
                ));
                k += 1;
                assert(self@.screen =~~= before.insert_lines(k as int).screen);
            }
            assert(self@.screen =~~= before.insert_lines(count as int).screen);
        }
    }

    /// Deletes `count` rows at the cursor's row.
    fn delete_lines(&mut self, count: usize)
        requires
            old(self).wf(),
        ensures
            final(self).wf(),
            final(self)@ == old(self)@.delete_lines(count as int),
    {
        let ghost before = self@;
        if self.scroll_top <= self.cursor_y && self.cursor_y <= self.scroll_bottom {
            let height: usize = self.scroll_bottom - self.cursor_y + 1;
            let n: usize = if count < height { count } else { height };
            let mut k: usize = 0;
            assert(self@.screen =~~= before.delete_lines(k as int).screen);
            while k < n
                invariant
                    before.wf(),
                    before.cursor_in_region(),
                    self.wf(),
                    k <= n,
                    self@ == (TerminalState {
                        screen: before.delete_lines(k as int).screen,
                        ..before
                    }),
                decreases n - k,
            {
                let ghost prev = self@;
                self.grid.remove(self.cursor_y);
                let blank = filled_row(self.blank_cell(), self.cols);
                self.grid.insert(self.scroll_bottom, blank);
                assert(self@.screen =~~= prev.screen.remove(prev.cursor_y).insert(
                    prev.scroll_bottom,
                    row_of(prev.blank_cell(), prev.cols),
                ));
                k += 1;
                assert(self@.screen =~~= before.delete_lines(k as int).screen);
            }
            assert(self@.screen =~~= before.delete_lines(count as int).screen);
        }
    }

    /// Deletes `count` cells at the cursor.
    fn delete_chars(&mut self, count: usize)
        requires
            old(self).wf(),
        ensures
            final(self).wf(),
            final(self)@ == old(self)@.delete_chars(count as int),
    {
        let ghost before = self@;
        let cx: usize = self.cursor_x;
        let cy: usize = self.cursor_y;
        let width: usize = self.cols - cx;
        let n: usize = if count < width { count } else { width };
        let blank = self.blank_cell();
        let mut k: usize = 0;
        assert(self@.screen =~~= before.delete_chars(k as int).screen);
        while k < n
            invariant
                before.wf(),
                self.wf(),
                k <= n <= self.cols - cx,
                cx == before.cursor_x,
                cy == before.cursor_y,
                blank == before.blank_cell(),
                self@ == (TerminalState {
                    screen: before.delete_chars(k as int).screen,
                    ..before
                }),
            decreases n - k,
        {
            let ghost prev = self@;
            assert(prev.screen[cy as int].len() == self.cols);
            self.grid[cy].remove(cx);
            self.grid[cy].push(blank);
            assert(self@.screen =~~= prev.screen.update(
                cy as int,
                prev.screen[cy as int].remove(cx as int).push(blank),
            ));
            k += 1;
            assert(self@.screen =~~= before.delete_chars(k as int).screen);
        }
        assert(self@.screen =~~= before.delete_chars(count as int).screen);
    }

    /// Inserts `count` blanks at the cursor.
    fn insert_chars(&mut self, count: usize)
        requires
            old(self).wf(),
        ensures
            final(self).wf(),
            final(self)@ == old(self)@.insert_chars(count as int),
    {
        let ghost before = self@;
        let cx: usize = self.cursor_x;
        let cy: usize = self.cursor_y;
        let width: usize = self.cols - cx;
        let n: usize = if count < width { count } else { width };
        let blank = self.blank_cell();
        let mut k: usize = 0;
        assert(self@.screen =~~= before.insert_chars(k as int).screen);
        while k < n
            invariant
                before.wf(),
                self.wf(),
                k <= n <= self.cols - cx,
                cx == before.cursor_x,
                cy == before.cursor_y,
                blank == before.blank_cell(),
                self@ == (TerminalState {
                    screen: before.insert_chars(k as int).screen,
                    ..before
                }),
            decreases n - k,
        {
            let ghost prev = self@;
            assert(prev.screen[cy as int].len() == self.cols);
            self.grid[cy].insert(cx, blank);
            self.grid[cy].pop();
            assert(self@.screen =~~= prev.screen.update(
                cy as int,
                prev.screen[cy as int].insert(cx as int, blank).drop_last(),
            ));
            k += 1;
            assert(self@.screen =~~= before.insert_chars(k as int).screen);
        }
        assert(self@.screen =~~= before.insert_chars(count as int).screen);
    }

    /// A control sequence that carried `values` values, subparameters
    /// counted, with each parameter given by its first value.
    pub fn csi_dispatch_counted(
        &mut self,
        params: &[u16],
        values: usize,
        intermediates: &[u8],
        ignore: bool,
        action: char,
    )
        requires
            old(self).wf(),
        ensures
            final(self).wf(),
            final(self)@ == old(self)@.csi_counted(params@, values as int, intermediates@, action),
    {
        if action == 'r' {
            self.set_margins(params, values);
        } else {
            self.csi_dispatch(params, intermediates, ignore, action);
        }
    }

    /// A control sequence with final character `action`. The cursor
    /// motions, the erase, insert and delete functions, the margins, the
    /// private mouse modes and the graphic rendition are interpreted; any
    /// other sequence is ignored.
    pub fn csi_dispatch(&mut self, params: &[u16], intermediates: &[u8], ignore: bool, action: char)
        requires
            old(self).wf(),
        ensures
            final(self).wf(),
            final(self)@ == old(self)@.csi(params@, intermediates@, action),
    {
        if action == 'A' {
            self.cursor_up(count_param(params, 0));
        } else if action == 'B' {
            self.cursor_down(count_param(params, 0));
        } else if action == 'C' {
            self.cursor_forward(count_param(params, 0));
        } else if action == 'D' {
            self.cursor_back(count_param(params, 0));
        } else if action == 'H' || action == 'f' {
            let row: usize = count_param(params, 0) - 1;
            let col: usize = count_param(params, 1) - 1;
            self.cursor_y = if row < self.rows - 1 { row } else { self.rows - 1 };
            self.cursor_x = if col < self.cols - 1 { col } else { self.cols - 1 };
        } else if action == 'G' {
            let col: usize = count_param(params, 0) - 1;
            self.cursor_x = if col < self.cols - 1 { col } else { self.cols - 1 };
        } else if action == 'd' {
            let row: usize = count_param(params, 0) - 1;
            self.cursor_y = if row < self.rows - 1 { row } else { self.rows - 1 };
        } else if action == 'J' {
            self.erase_display(selector_param(params));
        } else if action == 'K' {
            self.erase_line(selector_param(params));
        } else if action == 'L' {
            self.insert_lines(count_param(params, 0));
        } else if action == 'M' {
            self.delete_lines(count_param(params, 0));
        } else if action == 'P' {
            self.delete_chars(count_param(params, 0));
        } else if action == '@' {
            self.insert_chars(count_param(params, 0));
        } else if action == 'r' {
            self.set_margins(params, params.len());
        } else if action == 'h' && has_private_marker(intermediates) {
            if any_mouse_mode(params) {
                self.mouse_reporting = true;
            }
        } else if action == 'l' && has_private_marker(intermediates) {
            if any_mouse_mode(params) {
                self.mouse_reporting = false;
            }
        } else if action == 'm' {
            self.select_rendition(params);
        }
    }

    /// An operating system command: commands `0` and `2` set the title to
    /// the text that follows when it is valid UTF-8; everything else is
    /// ignored.
    pub fn osc_dispatch(&mut self, params: &Vec<Vec<u8>>, bell_terminated: bool)
        ensures
            final(self)@ == old(self)@.osc(byte_strings(params@)),
            old(self).wf() ==> final(self).wf(),
    {
        if params.len() >= 2 {
            let command = &params[0];
            assert(byte_strings(params@)[0] == command@);
            assert(byte_strings(params@)[1] == params@[1]@);
            if command.len() == 1 && (command[0] == 0x30 || command[0] == 0x32) {
                assert(command@ =~= seq![command@[0]]);
                match core::str::from_utf8(params[1].as_slice()) {
                    Ok(text) => {
                        proof {
                            vstd::utf8::encode_utf8_decode_utf8(text@);
                        }
                        self.title = text.to_owned();
                    },
                    Err(_) => {},
                }
            } else {
                assert(command@ != seq![0x30u8] && command@ != seq![0x32u8]) by {
                    if command@.len() == 1 {
                        assert(seq![0x30u8][0] == 0x30u8);
                        assert(seq![0x32u8][0] == 0x32u8);
                    } else {
                        assert(seq![0x30u8].len() == 1);
                        assert(seq![0x32u8].len() == 1);
                    }
                }
            }
        }
    }
}

} // verus!
