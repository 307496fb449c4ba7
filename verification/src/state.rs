//! The mathematical model of a terminal: its screen, scrollback, cursor,
//! margins, pen, selection and view offset, and the transitions that the
//! control functions perform on them.

use vstd::prelude::*;
use crate::cell::{default_cell, Cell, Color};

verus! {

/// The most rows the scrollback keeps; beyond it the oldest row is evicted.
pub const HISTORY_LIMIT: usize = 10_000;

/// The abstract state of a terminal.
///
/// Coordinates are zero-based. `cursor_x == cols` is the deferred-wrap
/// position: the next printed glyph wraps before it is placed.
#[verifier::ext_equal]
pub struct TerminalState {
    /// The active screen, row by row from the top.
    pub screen: Seq<Seq<Cell>>,
    /// The scrollback, oldest row first; each row as wide as the screen was
    /// when the row was retired.
    pub history: Seq<Seq<Cell>>,
    pub cols: int,
    pub rows: int,
    pub cursor_x: int,
    pub cursor_y: int,
    /// How many rows of scrollback the view shows above the live screen.
    pub scroll_offset: int,
    /// The margins of the scroll region, both inclusive.
    pub scroll_top: int,
    pub scroll_bottom: int,
    /// The pen: what newly printed cells are drawn with.
    pub fg: Color,
    pub bg: Color,
    pub inverse: bool,
    pub saved_cursor_x: int,
    pub saved_cursor_y: int,
    pub mouse_reporting: bool,
    pub title: Seq<char>,
    /// The anchor and the head of the selection, as (column, row).
    pub selection_start: Option<(int, int)>,
    pub selection_end: Option<(int, int)>,
}

/// A row of `cols` copies of `cell`.
pub open spec fn row_of(cell: Cell, cols: int) -> Seq<Cell> {
    Seq::new(cols as nat, |x: int| cell)
}

/// `history` with `row` appended, the oldest row evicted first when the
/// scrollback is full.
pub open spec fn push_bounded(history: Seq<Seq<Cell>>, row: Seq<Cell>) -> Seq<Seq<Cell>> {
    if history.len() >= HISTORY_LIMIT {
        history.remove(0).push(row)
    } else {
        history.push(row)
    }
}

/// The smaller of two integers.
pub open spec fn min_int(a: int, b: int) -> int {
    if a <= b { a } else { b }
}

/// The larger of two integers.
pub open spec fn max_int(a: int, b: int) -> int {
    if a >= b { a } else { b }
}

/// `row` cut off at `cols` cells or padded with default cells up to `cols`.
pub open spec fn fitted(row: Seq<Cell>, cols: int) -> Seq<Cell> {
    Seq::new(cols as nat, |x: int| if x < row.len() { row[x] } else { default_cell() })
}

/// Whether position `a` comes before `b`, or is `b`, in reading order: by
/// row, then by column. Positions are (column, row) pairs.
pub open spec fn reads_before(a: (int, int), b: (int, int)) -> bool {
    a.1 < b.1 || (a.1 == b.1 && a.0 <= b.0)
}

/// The glyphs of `row` in columns `from` through `to`, as far as the row
/// has them.
pub open spec fn span_text(row: Seq<Cell>, from: int, to: int) -> Seq<char> {
    let end = min_int(to + 1, row.len() as int);
    if 0 <= from < end {
        Seq::new((end - from) as nat, |i: int| row[from + i].char)
    } else {
        Seq::empty()
    }
}

impl TerminalState {
    /// The invariants every reachable terminal satisfies: the screen has
    /// `rows` rows of `cols` cells, the cursor is on the screen or in the
    /// deferred-wrap column, the margins are in order and on the screen
    /// (and apart, where the screen has room for that), the scrollback is
    /// within its limit and the view within the scrollback.
    pub open spec fn wf(self) -> bool {
        &&& self.rows >= 1
        &&& self.cols >= 1
        &&& self.screen.len() == self.rows
        &&& forall|r: int| 0 <= r < self.rows ==> (#[trigger] self.screen[r]).len() == self.cols
        &&& 0 <= self.cursor_x <= self.cols
        &&& 0 <= self.cursor_y < self.rows
        &&& 0 <= self.scroll_top <= self.scroll_bottom < self.rows
        &&& (self.rows >= 2 ==> self.scroll_top < self.scroll_bottom)
        &&& self.history.len() <= HISTORY_LIMIT
        &&& 0 <= self.scroll_offset <= self.history.len()
    }

    /// The state of a fresh terminal of the given size: blank screen, empty
    /// scrollback, cursor home, margins spanning the screen, default pen.
    pub open spec fn initial(cols: int, rows: int, title: Seq<char>) -> Self {
        TerminalState {
            screen: Seq::new(rows as nat, |r: int| row_of(default_cell(), cols)),
            history: Seq::empty(),
            cols,
            rows,
            cursor_x: 0,
            cursor_y: 0,
            scroll_offset: 0,
            scroll_top: 0,
            scroll_bottom: rows - 1,
            fg: Color::DefaultFg,
            bg: Color::DefaultBg,
            inverse: false,
            saved_cursor_x: 0,
            saved_cursor_y: 0,
            mouse_reporting: false,
            title,
            selection_start: None,
            selection_end: None,
        }
    }

    /// The cell that the pen paints with glyph `c`.
    pub open spec fn inked(self, c: char) -> Cell {
        Cell { char: c, fg: self.fg, bg: self.bg, inverse: self.inverse }
    }

    /// A space in the pen's colors.
    pub open spec fn blank_cell(self) -> Cell {
        self.inked(' ')
    }

    /// Whether the margins span the whole screen.
    pub open spec fn margins_default(self) -> bool {
        self.scroll_top == 0 && self.scroll_bottom == self.rows - 1
    }

    /// Line feed. At the bottom margin the scroll region moves up by one row:
    /// the row at the top margin leaves the screen, a blank row in the pen's
    /// colors enters at the bottom margin, and the row that left is retired to
    /// the scrollback exactly when the top margin is the first screen row.
    /// Anywhere else the cursor moves down one row, stopping at the last row.
    /// The column is kept.
    pub open spec fn new_line(self) -> Self {
        if self.cursor_y == self.scroll_bottom {
            TerminalState {
                screen: self.screen.remove(self.scroll_top).insert(
                    self.scroll_bottom,
                    row_of(self.blank_cell(), self.cols),
                ),
                history: if self.scroll_top == 0 {
                    push_bounded(self.history, self.screen[self.scroll_top])
                } else {
                    self.history
                },
                ..self
            }
        } else {
            TerminalState { cursor_y: min_int(self.cursor_y + 1, self.rows - 1), ..self }
        }
    }

    /// Where `print` places its glyph: the cursor, or the start of the next
    /// line when the cursor sits in the deferred-wrap position.
    pub open spec fn wrapped(self) -> Self {
        if self.cursor_x >= self.cols {
            TerminalState { cursor_x: 0, ..self.new_line() }
        } else {
            self
        }
    }

    /// Writes glyph `c` with the pen at the (wrapped) cursor and advances the
    /// cursor by one column.
    pub open spec fn print(self, c: char) -> Self {
        let s = self.wrapped();
        TerminalState {
            screen: s.screen.update(s.cursor_y, s.screen[s.cursor_y].update(s.cursor_x, s.inked(c))),
            cursor_x: s.cursor_x + 1,
            ..s
        }
    }

    /// A C0 control: line feed, carriage return, backspace and horizontal tab
    /// act; every other byte leaves the state as it is.
    pub open spec fn execute(self, byte: u8) -> Self {
        if byte == 0x0a {
            self.new_line()
        } else if byte == 0x0d {
            TerminalState { cursor_x: 0, ..self }
        } else if byte == 0x08 {
            TerminalState { cursor_x: max_int(self.cursor_x - 1, 0), ..self }
        } else if byte == 0x09 {
            TerminalState {
                cursor_x: min_int((self.cursor_x / 8 + 1) * 8, self.cols - 1),
                ..self
            }
        } else {
            self
        }
    }

    /// Begins a selection: anchor and head both at (`col`, `row`).
    pub open spec fn start_selection(self, col: int, row: int) -> Self {
        TerminalState { selection_start: Some((col, row)), selection_end: Some((col, row)), ..self }
    }

    /// Moves the head of the selection to (`col`, `row`); without an anchor
    /// nothing changes.
    pub open spec fn update_selection(self, col: int, row: int) -> Self {
        if self.selection_start is Some {
            TerminalState { selection_end: Some((col, row)), ..self }
        } else {
            self
        }
    }

    /// Drops the selection.
    pub open spec fn clear_selection(self) -> Self {
        TerminalState { selection_start: None, selection_end: None, ..self }
    }

    /// The two ends of the selection in reading order, if there is one.
    pub open spec fn selection(self) -> Option<((int, int), (int, int))> {
        match (self.selection_start, self.selection_end) {
            (Some(start), Some(end)) => if reads_before(start, end) {
                Some((start, end))
            } else {
                Some((end, start))
            },
            _ => None,
        }
    }

    /// Whether the cell at (`col`, `row`) lies in the selection: between its
    /// two ends in reading order, both ends included.
    pub open spec fn is_selected(self, col: int, row: int) -> bool {
        match self.selection() {
            Some((first, last)) => reads_before(first, (col, row)) && reads_before((col, row), last),
            None => false,
        }
    }

    /// Whether the selection, if there is one, lies on the screen's rows.
    pub open spec fn selection_on_screen(self) -> bool {
        match self.selection() {
            Some((first, last)) => last.1 < self.rows,
            None => true,
        }
    }

    /// Scrolls the view back by `lines`, at most to the oldest row kept.
    pub open spec fn scroll_up(self, lines: int) -> Self {
        TerminalState {
            scroll_offset: min_int(self.scroll_offset + lines, self.history.len() as int),
            ..self
        }
    }

    /// Scrolls the view forward by `lines`, at most to the live screen.
    pub open spec fn scroll_down(self, lines: int) -> Self {
        TerminalState { scroll_offset: max_int(self.scroll_offset - lines, 0), ..self }
    }

    /// The row shown at screen position `screen_y`: the view is a window of
    /// `rows` rows onto the scrollback followed by the screen, moved up from
    /// the live screen by the scroll offset.
    pub open spec fn visible_row(self, screen_y: int) -> Seq<Cell> {
        (self.history + self.screen)[self.history.len() - self.scroll_offset + screen_y]
    }

    /// The part of visible row `row` that a selection from `first` to `last`
    /// covers.
    pub open spec fn selected_span(self, first: (int, int), last: (int, int), row: int) -> Seq<char> {
        span_text(
            self.visible_row(row),
            if row == first.1 { first.0 } else { 0 },
            if row == last.1 { last.0 } else { self.cols - 1 },
        )
    }

    /// The text of the selected rows from the first one through `row`, a
    /// line feed after every row but the selection's last.
    pub open spec fn selected_lines(self, first: (int, int), last: (int, int), row: int) -> Seq<char>
        decreases row - first.1 + 1,
    {
        if row < first.1 {
            Seq::empty()
        } else {
            self.selected_lines(first, last, row - 1) + self.selected_span(first, last, row) + (
            if row != last.1 {
                seq!['\n']
            } else {
                Seq::empty()
            })
        }
    }

    /// The selected text as it is shown: the covered part of each selected
    /// row, rows separated by line feeds, trailing spaces kept. A selection
    /// that reaches below the screen has no text.
    pub open spec fn selected_text(self) -> Seq<char> {
        match self.selection() {
            Some((first, last)) => if last.1 < self.rows {
                self.selected_lines(first, last, last.1)
            } else {
                Seq::empty()
            },
            None => Seq::empty(),
        }
    }

    /// The state after printing `glyphs` one after the other.
    pub open spec fn print_all(self, glyphs: Seq<char>) -> Self
        decreases glyphs.len(),
    {
        if glyphs.len() == 0 {
            self
        } else {
            self.print_all(glyphs.drop_last()).print(glyphs.last())
        }
    }
}

} // verus!
