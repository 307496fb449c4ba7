//! What each control sequence does to the terminal's state.
//!
//! Parameters are the numeric parameters of the sequence in order, each
//! taken by its first value; subparameters are not interpreted, though
//! setting the margins counts them.

use vstd::prelude::*;
use vstd::utf8::{decode_utf8, valid_utf8};
use crate::cell::{default_cell, Cell, Color};
use crate::state::{fitted, max_int, min_int, row_of, TerminalState};

verus! {

/// The `i`-th parameter as a count or a one-based position: an absent
/// parameter and a zero both stand for one.
pub open spec fn param(params: Seq<u16>, i: int) -> int {
    if 0 <= i < params.len() && params[i] != 0 {
        params[i] as int
    } else {
        1
    }
}

/// The first parameter as a selector: an absent parameter stands for zero.
pub open spec fn selector(params: Seq<u16>) -> int {
    if params.len() > 0 {
        params[0] as int
    } else {
        0
    }
}

/// Whether the sequence carries the private marker `?`.
pub open spec fn is_private(intermediates: Seq<u8>) -> bool {
    intermediates.len() > 0 && intermediates[0] == 0x3f
}

/// Whether `mode` is one of the private modes that switch mouse reporting.
pub open spec fn is_mouse_mode(mode: u16) -> bool {
    mode == 1000 || mode == 1002 || mode == 1006 || mode == 1015
}

/// Whether any parameter names a mouse-reporting mode.
pub open spec fn names_mouse_mode(params: Seq<u16>) -> bool {
    exists|i: int| 0 <= i < params.len() && is_mouse_mode(#[trigger] params[i])
}

/// The standard palette entry with index `i` (0 to 7).
pub open spec fn standard_color(i: int) -> Color {
    if i == 0 {
        Color::Black
    } else if i == 1 {
        Color::Red
    } else if i == 2 {
        Color::Green
    } else if i == 3 {
        Color::Yellow
    } else if i == 4 {
        Color::Blue
    } else if i == 5 {
        Color::Magenta
    } else if i == 6 {
        Color::Cyan
    } else {
        Color::White
    }
}

/// The bright palette entry with index `i` (0 to 7).
pub open spec fn bright_color(i: int) -> Color {
    if i == 0 {
        Color::BrightBlack
    } else if i == 1 {
        Color::BrightRed
    } else if i == 2 {
        Color::BrightGreen
    } else if i == 3 {
        Color::BrightYellow
    } else if i == 4 {
        Color::BrightBlue
    } else if i == 5 {
        Color::BrightMagenta
    } else if i == 6 {
        Color::BrightCyan
    } else {
        Color::BrightWhite
    }
}

/// The bright twin of a standard color; any other color is its own.
pub open spec fn brightened(c: Color) -> Color {
    match c {
        Color::Black => Color::BrightBlack,
        Color::Red => Color::BrightRed,
        Color::Green => Color::BrightGreen,
        Color::Yellow => Color::BrightYellow,
        Color::Blue => Color::BrightBlue,
        Color::Magenta => Color::BrightMagenta,
        Color::Cyan => Color::BrightCyan,
        Color::White => Color::BrightWhite,
        _ => c,
    }
}

impl TerminalState {
    /// The screen with every cell that `hit` selects replaced by the default
    /// cell.
    pub open spec fn erased(self, hit: spec_fn(int, int) -> bool) -> Seq<Seq<Cell>> {
        Seq::new(
            self.rows as nat,
            |r: int|
                Seq::new(
                    self.cols as nat,
                    |x: int|
                        if hit(r, x) {
                            default_cell()
                        } else {
                            self.screen[r][x]
                        },
                ),
        )
    }

    /// Erase in display. Mode 2 clears the whole screen and homes the
    /// cursor; every other mode clears from the cursor to the end of the
    /// screen.
    pub open spec fn erase_display(self, mode: int) -> Self {
        if mode == 2 {
            TerminalState { screen: self.erased(|r: int, x: int| true), cursor_x: 0, cursor_y: 0, ..self }
        } else {
            TerminalState {
                screen: self.erased(
                    |r: int, x: int| r > self.cursor_y || (r == self.cursor_y && x >= self.cursor_x),
                ),
                ..self
            }
        }
    }

    /// Erase in line. Mode 2 clears the cursor's row, mode 1 the cells left
    /// of the cursor, every other mode the cells from the cursor on.
    pub open spec fn erase_line(self, mode: int) -> Self {
        if mode == 2 {
            TerminalState { screen: self.erased(|r: int, x: int| r == self.cursor_y), ..self }
        } else if mode == 1 {
            TerminalState {
                screen: self.erased(|r: int, x: int| r == self.cursor_y && x < self.cursor_x),
                ..self
            }
        } else {
            TerminalState {
                screen: self.erased(|r: int, x: int| r == self.cursor_y && x >= self.cursor_x),
                ..self
            }
        }
    }

    /// Whether the cursor is inside the scroll region.
    pub open spec fn cursor_in_region(self) -> bool {
        self.scroll_top <= self.cursor_y <= self.scroll_bottom
    }

    /// Inserts `n` blank rows at the cursor's row: the rows from there to the
    /// bottom margin move down, and those pushed past the margin are lost.
    /// Outside the scroll region nothing happens.
    pub open spec fn insert_lines(self, n: int) -> Self {
        if self.cursor_in_region() {
            TerminalState {
                screen: Seq::new(
                    self.rows as nat,
                    |r: int|
                        if self.cursor_y <= r <= self.scroll_bottom {
                            if r < self.cursor_y + n {
                                row_of(self.blank_cell(), self.cols)
                            } else {
                                self.screen[r - n]
                            }
                        } else {
                            self.screen[r]
                        },
                ),
                ..self
            }
        } else {
            self
        }
    }

    /// Deletes `n` rows at the cursor's row: the rows below, down to the
    /// bottom margin, move up, and blank rows fill in at the margin.
    /// Outside the scroll region nothing happens.
    pub open spec fn delete_lines(self, n: int) -> Self {
        if self.cursor_in_region() {
            TerminalState {
                screen: Seq::new(
                    self.rows as nat,
                    |r: int|
                        if self.cursor_y <= r <= self.scroll_bottom {
                            if r + n <= self.scroll_bottom {
                                self.screen[r + n]
                            } else {
                                row_of(self.blank_cell(), self.cols)
                            }
                        } else {
                            self.screen[r]
                        },
                ),
                ..self
            }
        } else {
            self
        }
    }

    /// Deletes `n` cells at the cursor: the cells to the right move left and
    /// blanks fill in at the end of the row.
    pub open spec fn delete_chars(self, n: int) -> Self {
        let row = self.screen[self.cursor_y];
        TerminalState {
            screen: self.screen.update(
                self.cursor_y,
                Seq::new(
                    self.cols as nat,
                    |x: int|
                        if x < self.cursor_x {
                            row[x]
                        } else if x + n < self.cols {
                            row[x + n]
                        } else {
                            self.blank_cell()
                        },
                ),
            ),
            ..self
        }
    }

    /// Inserts `n` blanks at the cursor: the cells from there on move right
    /// and those pushed past the end of the row are lost.
    pub open spec fn insert_chars(self, n: int) -> Self {
        let row = self.screen[self.cursor_y];
        TerminalState {
            screen: self.screen.update(
                self.cursor_y,
                Seq::new(
                    self.cols as nat,
                    |x: int|
                        if x < self.cursor_x {
                            row[x]
                        } else if x < self.cursor_x + n {
                            self.blank_cell()
                        } else {
                            row[x - n]
                        },
                ),
            ),
            ..self
        }
    }

    /// Sets the margins to the one-based rows `params` gives and homes the
    /// cursor. The bottom is the last row unless the sequence carried more
    /// than one value; `values` says how many it carried, subparameters
    /// counted. A region that is not at least two rows tall resets the
    /// margins to the whole screen.
    pub open spec fn set_margins(self, params: Seq<u16>, values: int) -> Self {
        let top = min_int(param(params, 0) - 1, self.rows - 1);
        let bottom = if values > 1 {
            min_int(param(params, 1) - 1, self.rows - 1)
        } else {
            self.rows - 1
        };
        if bottom <= top {
            TerminalState {
                scroll_top: 0,
                scroll_bottom: self.rows - 1,
                cursor_x: 0,
                cursor_y: 0,
                ..self
            }
        } else {
            TerminalState { scroll_top: top, scroll_bottom: bottom, cursor_x: 0, cursor_y: 0, ..self }
        }
    }

    /// Sets or resets private modes: mouse reporting becomes `on` when a
    /// parameter names one of its modes; every other mode is accepted and
    /// ignored.
    pub open spec fn set_modes(self, params: Seq<u16>, on: bool) -> Self {
        if names_mouse_mode(params) {
            TerminalState { mouse_reporting: on, ..self }
        } else {
            self
        }
    }

    /// One rendition parameter applied to the pen.
    pub open spec fn render(self, p: u16) -> Self {
        if p == 0 {
            TerminalState { fg: Color::DefaultFg, bg: Color::DefaultBg, inverse: false, ..self }
        } else if p == 1 {
            TerminalState { fg: brightened(self.fg), ..self }
        } else if p == 7 {
            TerminalState { inverse: true, ..self }
        } else if p == 27 {
            TerminalState { inverse: false, ..self }
        } else if 30 <= p <= 37 {
            TerminalState { fg: standard_color(p - 30), ..self }
        } else if p == 39 {
            TerminalState { fg: Color::DefaultFg, ..self }
        } else if 40 <= p <= 47 {
            TerminalState { bg: standard_color(p - 40), ..self }
        } else if p == 49 {
            TerminalState { bg: Color::DefaultBg, ..self }
        } else if 90 <= p <= 97 {
            TerminalState { fg: bright_color(p - 90), ..self }
        } else {
            self
        }
    }

    /// The rendition parameters applied to the pen in order.
    pub open spec fn render_all(self, params: Seq<u16>) -> Self
        decreases params.len(),
    {
        if params.len() == 0 {
            self
        } else {
            self.render_all(params.drop_last()).render(params.last())
        }
    }

    /// Select graphic rendition: each parameter in order; no parameter at
    /// all stands for a single zero.
    pub open spec fn select_rendition(self, params: Seq<u16>) -> Self {
        if params.len() == 0 {
            self.render(0)
        } else {
            self.render_all(params)
        }
    }

    /// A control sequence that carried `values` values, subparameters
    /// counted. Only setting the margins looks at that number; without
    /// subparameters it is the number of parameters.
    pub open spec fn csi_counted(
        self,
        params: Seq<u16>,
        values: int,
        intermediates: Seq<u8>,
        action: char,
    ) -> Self {
        if action == 'r' {
            self.set_margins(params, values)
        } else {
            self.csi(params, intermediates, action)
        }
    }

    /// A control sequence with final character `action`.
    pub open spec fn csi(self, params: Seq<u16>, intermediates: Seq<u8>, action: char) -> Self {
        if action == 'A' {
            TerminalState { cursor_y: max_int(self.cursor_y - param(params, 0), 0), ..self }
        } else if action == 'B' {
            TerminalState {
                cursor_y: min_int(self.cursor_y + param(params, 0), self.rows - 1),
                ..self
            }
        } else if action == 'C' {
            TerminalState {
                cursor_x: min_int(self.cursor_x + param(params, 0), self.cols - 1),
                ..self
            }
        } else if action == 'D' {
            TerminalState { cursor_x: max_int(self.cursor_x - param(params, 0), 0), ..self }
        } else if action == 'H' || action == 'f' {
            TerminalState {
                cursor_y: min_int(param(params, 0) - 1, self.rows - 1),
                cursor_x: min_int(param(params, 1) - 1, self.cols - 1),
                ..self
            }
        } else if action == 'G' {
            TerminalState { cursor_x: min_int(param(params, 0) - 1, self.cols - 1), ..self }
        } else if action == 'd' {
            TerminalState { cursor_y: min_int(param(params, 0) - 1, self.rows - 1), ..self }
        } else if action == 'J' {
            self.erase_display(selector(params))
        } else if action == 'K' {
            self.erase_line(selector(params))
        } else if action == 'L' {
            self.insert_lines(param(params, 0))
        } else if action == 'M' {
            self.delete_lines(param(params, 0))
        } else if action == 'P' {
            self.delete_chars(param(params, 0))
        } else if action == '@' {
            self.insert_chars(param(params, 0))
        } else if action == 'r' {
            self.set_margins(params, params.len() as int)
        } else if action == 'h' && is_private(intermediates) {
            self.set_modes(params, true)
        } else if action == 'l' && is_private(intermediates) {
            self.set_modes(params, false)
        } else if action == 'm' {
            self.select_rendition(params)
        } else {
            self
        }
    }

    /// An operating system command: commands `0` and `2` set the title to the
    /// text that follows when it is valid UTF-8; everything else is ignored.
    pub open spec fn osc(self, params: Seq<Seq<u8>>) -> Self {
        if params.len() >= 2 && (params[0] == seq![0x30u8] || params[0] == seq![0x32u8])
            && valid_utf8(params[1]) {
            TerminalState { title: decode_utf8(params[1]), ..self }
        } else {
            self
        }
    }

    /// The screen resized to `cols` by `rows`: cells inside both extents
    /// stay, cells outside the new extent are cut off, cells newly exposed
    /// are default cells. The cursor is clamped, the margins span the new
    /// screen and the view returns to the live screen.
    pub open spec fn resize(self, cols: int, rows: int) -> Self {
        TerminalState {
            screen: Seq::new(
                rows as nat,
                |r: int|
                    if r < self.rows {
                        fitted(self.screen[r], cols)
                    } else {
                        row_of(default_cell(), cols)
                    },
            ),
            cols,
            rows,
            scroll_top: 0,
            scroll_bottom: rows - 1,
            cursor_x: min_int(self.cursor_x, cols - 1),
            cursor_y: min_int(self.cursor_y, rows - 1),
            scroll_offset: 0,
            ..self
        }
    }
}

} // verus!
