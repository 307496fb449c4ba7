//! The terminal grid: the executable state and the operations that the
//! control functions and the user's view act through.

use vstd::prelude::*;
use crate::cell::{default_cell, Cell, Color};
use crate::state::{fitted, min_int, row_of, span_text, TerminalState, HISTORY_LIMIT};

verus! {

/// A terminal: the active screen, the scrollback, and everything that
/// decides how the next glyph or control function changes them.
pub struct Terminal {
    pub grid: Vec<Vec<Cell>>,
    pub history: Vec<Vec<Cell>>,
    pub cols: usize,
    pub rows: usize,
    pub cursor_x: usize,
    pub cursor_y: usize,
    pub scroll_offset: usize,
    /// Top margin of the scroll region (zero-based, inclusive).
    pub scroll_top: usize,
    /// Bottom margin of the scroll region (zero-based, inclusive).
    pub scroll_bottom: usize,
    pub current_fg: Color,
    pub current_bg: Color,
    pub current_inverse: bool,
    pub saved_cursor_x: usize,
    pub saved_cursor_y: usize,
    pub mouse_reporting: bool,
    pub title: String,
    pub selection_start: Option<(usize, usize)>,
    pub selection_end: Option<(usize, usize)>,
}

/// The cells of each row of `rows`.
pub open spec fn rows_view(rows: Seq<Vec<Cell>>) -> Seq<Seq<Cell>> {
    Seq::new(rows.len(), |r: int| rows[r]@)
}

/// A grid position as a pair of integers.
pub open spec fn point_view(p: Option<(usize, usize)>) -> Option<(int, int)> {
    match p {
        Some((col, row)) => Some((col as int, row as int)),
        None => None,
    }
}

impl View for Terminal {
    type V = TerminalState;

    open spec fn view(&self) -> TerminalState {
        TerminalState {
            screen: rows_view(self.grid@),
            history: rows_view(self.history@),
            cols: self.cols as int,
            rows: self.rows as int,
            cursor_x: self.cursor_x as int,
            cursor_y: self.cursor_y as int,
            scroll_offset: self.scroll_offset as int,
            scroll_top: self.scroll_top as int,
            scroll_bottom: self.scroll_bottom as int,
            fg: self.current_fg,
            bg: self.current_bg,
            inverse: self.current_inverse,
            saved_cursor_x: self.saved_cursor_x as int,
            saved_cursor_y: self.saved_cursor_y as int,
            mouse_reporting: self.mouse_reporting,
            title: self.title@,
            selection_start: point_view(self.selection_start),
            selection_end: point_view(self.selection_end),
        }
    }
}

/// A row of `cols` copies of `cell`.
pub fn filled_row(cell: Cell, cols: usize) -> (row: Vec<Cell>)
    ensures
        row@ == row_of(cell, cols as int),
{
    let mut row: Vec<Cell> = Vec::new();
    let mut x: usize = 0;
    while x < cols
        invariant
            x <= cols,
            row@ == row_of(cell, x as int),
        decreases cols - x,
    {
        row.push(cell);
        x += 1;
    }
    row
}

/// Cuts `row` off at `cols` cells or pads it with default cells up to
/// `cols`.
pub fn fit_row(row: &mut Vec<Cell>, cols: usize)
    ensures
        final(row)@ == fitted(old(row)@, cols as int),
{
    row.truncate(cols);
    while row.len() < cols
        invariant
            row@.len() <= cols,
            row@.len() >= min_int(old(row)@.len() as int, cols as int),
            forall|x: int| 0 <= x < row@.len() ==> #[trigger] row@[x] == fitted(old(row)@, cols as int)[x],
        decreases cols - row@.len(),
    {
        row.push(Cell::default());
    }
    assert(row@ =~= fitted(old(row)@, cols as int));
}

impl Terminal {
    /// Whether the terminal satisfies the invariants of its model.
    pub open spec fn wf(&self) -> bool {
        self@.wf()
    }

    /// Whether the terminal is well-formed, found by looking at it.
    pub fn is_well_formed(&self) -> (ok: bool)
        ensures
            ok == self.wf(),
    {
        if self.rows < 1 || self.cols < 1 || self.grid.len() != self.rows {
            return false;
        }
        if self.cursor_x > self.cols || self.cursor_y >= self.rows {
            return false;
        }
        if self.scroll_top > self.scroll_bottom || self.scroll_bottom >= self.rows {
            return false;
        }
        if self.rows >= 2 && self.scroll_top >= self.scroll_bottom {
            return false;
        }
        if self.history.len() > HISTORY_LIMIT || self.scroll_offset > self.history.len() {
            return false;
        }
        let mut r: usize = 0;
        while r < self.rows
            invariant
                r <= self.rows,
                self.grid@.len() == self.rows,
                forall|i: int| 0 <= i < r ==> (#[trigger] self@.screen[i]).len() == self.cols,
            decreases self.rows - r,
        {
            if self.grid[r].len() != self.cols {
                assert(self@.screen[r as int].len() != self.cols);
                return false;
            }
            r += 1;
        }
        true
    }

    /// A fresh terminal of `cols` by `rows` cells.
    pub fn new(cols: usize, rows: usize) -> (term: Self)
        requires
            cols >= 1,
            rows >= 1,
        ensures
            term.wf(),
            term@ == TerminalState::initial(cols as int, rows as int, "RoseTerm"@),
    {
        let mut grid: Vec<Vec<Cell>> = Vec::new();
        let mut y: usize = 0;
        while y < rows
            invariant
                y <= rows,
                grid@.len() == y,
                forall|r: int| 0 <= r < y ==> (#[trigger] grid@[r])@ == row_of(default_cell(), cols as int),
            decreases rows - y,
        {
            grid.push(filled_row(Cell::default(), cols));
            y += 1;
        }
        let term = Terminal {
            grid,
            history: Vec::new(),
            cols,
            rows,
            cursor_x: 0,
            cursor_y: 0,
            scroll_offset: 0,
            scroll_top: 0,
            scroll_bottom: rows - 1,
            current_fg: Color::DefaultFg,
            current_bg: Color::DefaultBg,
            current_inverse: false,
            saved_cursor_x: 0,
            saved_cursor_y: 0,
            mouse_reporting: false,
            title: "RoseTerm".to_owned(),
            selection_start: None,
            selection_end: None,
        };
        assert(term@.screen =~~= TerminalState::initial(cols as int, rows as int, "RoseTerm"@).screen);
        assert(term@.history =~~= TerminalState::initial(cols as int, rows as int, "RoseTerm"@).history);
        term
    }

    /// Begins a selection at (`col`, `row`).
    pub fn start_selection(&mut self, col: usize, row: usize)
        ensures
            final(self)@ == old(self)@.start_selection(col as int, row as int),
            old(self).wf() ==> final(self).wf(),
    {
        self.selection_start = Some((col, row));
        self.selection_end = Some((col, row));
    }

    /// Moves the head of the selection to (`col`, `row`).
    pub fn update_selection(&mut self, col: usize, row: usize)
        ensures
            final(self)@ == old(self)@.update_selection(col as int, row as int),
            old(self).wf() ==> final(self).wf(),
    {
        if self.selection_start.is_some() {
            self.selection_end = Some((col, row));
        }
    }

    /// Drops the selection.
    pub fn clear_selection(&mut self)
        ensures
            final(self)@ == old(self)@.clear_selection(),
            old(self).wf() ==> final(self).wf(),
    {
        self.selection_start = None;
        self.selection_end = None;
    }

    /// The two ends of the selection in reading order, if there is one.
    pub fn selection(&self) -> (ends: Option<((usize, usize), (usize, usize))>)
        ensures
            match ends {
                Some((first, last)) => self@.selection() == Some(
                    ((first.0 as int, first.1 as int), (last.0 as int, last.1 as int)),
                ),
                None => self@.selection() is None,
            },
    {
        match (self.selection_start, self.selection_end) {
            (Some(start), Some(end)) => {
                if start.1 < end.1 || (start.1 == end.1 && start.0 <= end.0) {
                    Some((start, end))
                } else {
                    Some((end, start))
                }
            },
            _ => None,
        }
    }

    /// Whether the cell at (`col`, `row`) lies in the selection.
    pub fn is_selected(&self, col: usize, row: usize) -> (inside: bool)
        ensures
            inside == self@.is_selected(col as int, row as int),
    {
        match self.selection() {
            Some((first, last)) => {
                (first.1 < row || (first.1 == row && first.0 <= col)) && (row < last.1 || (row
                    == last.1 && col <= last.0))
            },
            None => false,
        }
    }

    /// Whether the selection, if there is one, lies on the screen's rows.
    pub fn selection_on_screen(&self) -> (visible: bool)
        ensures
            visible == self@.selection_on_screen(),
    {
        match self.selection() {
            Some((first, last)) => last.1 < self.rows,
            None => true,
        }
    }

    /// Scrolls the view back by `lines`, at most to the oldest row kept.
    pub fn scroll_up(&mut self, lines: usize)
        requires
            old(self).wf(),
        ensures
            final(self).wf(),
            final(self)@ == old(self)@.scroll_up(lines as int),
    {
        let room: usize = self.history.len() - self.scroll_offset;
        self.scroll_offset = if lines >= room { self.history.len() } else { self.scroll_offset + lines };
    }

    /// Scrolls the view forward by `lines`, at most to the live screen.
    pub fn scroll_down(&mut self, lines: usize)
        requires
            old(self).wf(),
        ensures
            final(self).wf(),
            final(self)@ == old(self)@.scroll_down(lines as int),
    {
        self.scroll_offset = if lines >= self.scroll_offset { 0 } else { self.scroll_offset - lines };
    }

    /// The row shown at screen position `screen_y`, counted from the top.
    pub fn get_visible_row(&self, screen_y: usize) -> (row: &Vec<Cell>)
        requires
            self.wf(),
            screen_y < self.rows,
        ensures
            row@ == self@.visible_row(screen_y as int),
    {
        if self.scroll_offset > screen_y {
            let back: usize = self.scroll_offset - screen_y;
            &self.history[self.history.len() - back]
        } else {
            &self.grid[screen_y - self.scroll_offset]
        }
    }

    /// The selected text as it is shown: the covered part of each selected
    /// row, rows separated by line feeds, trailing spaces kept. A selection
    /// that reaches below the screen has no text.
    pub fn get_selected_text(&self) -> (text: String)
        requires
            self.wf(),
        ensures
            text@ == self@.selected_text(),
    {
        let mut text = String::new();
        if !self.selection_on_screen() {
            return text;
        }
        if let Some((first, last)) = self.selection() {
            let ghost first_at = (first.0 as int, first.1 as int);
            let ghost last_at = (last.0 as int, last.1 as int);
            let mut r: usize = first.1;
            while r <= last.1
                invariant
                    self.wf(),
                    first.1 <= r <= last.1 + 1,
                    last.1 < self.rows,
                    first_at == (first.0 as int, first.1 as int),
                    last_at == (last.0 as int, last.1 as int),
                    text@ == self@.selected_lines(first_at, last_at, r - 1),
                decreases last.1 + 1 - r,
            {
                let row = self.get_visible_row(r);
                let from: usize = if r == first.1 { first.0 } else { 0 };
                let to: usize = if r == last.1 { last.0 } else { self.cols - 1 };
                let stop: usize = if to < row.len() { to + 1 } else { row.len() };
                let ghost head = text@;
                let mut c: usize = from;
                while c < stop
                    invariant
                        from <= c,
                        stop <= row.len(),
                        stop == min_int(to + 1, row@.len() as int),
                        from <= stop ==> c <= stop,
                        from > stop ==> text@ == head,
                        c <= stop ==> text@ == head + Seq::new(
                            (c - from) as nat,
                            |i: int| row@[from + i].char,
                        ),
                    decreases stop - c,
                {
                    text.push(row[c].char);
                    c += 1;
                    assert(text@ =~= head + Seq::new(
                        (c - from) as nat,
                        |i: int| row@[from + i].char,
                    ));
                }
                assert(text@ =~= head + span_text(row@, from as int, to as int)) by {
                    if from < stop {
                        assert(c == stop);
                        assert(span_text(row@, from as int, to as int) =~= Seq::new(
                            (stop - from) as nat,
                            |i: int| row@[from + i].char,
                        ));
                    } else {
                        assert(span_text(row@, from as int, to as int) =~= Seq::<char>::empty());
                    }
                }
                if r != last.1 {
                    text.push('\n');
                }
                assert(text@ =~= self@.selected_lines(first_at, last_at, r as int));
                r += 1;
            }
        }
        text
    }

    /// Resizes the screen to `new_cols` by `new_rows`. Content is not
    /// reflowed: cells outside the new extent are cut off and newly exposed
    /// cells are blank. The scrollback keeps its rows as they are.
    pub fn resize(&mut self, new_cols: usize, new_rows: usize)
        requires
            old(self).wf(),
            new_cols >= 1,
            new_rows >= 1,
        ensures
            final(self).wf(),
            final(self)@ == old(self)@.resize(new_cols as int, new_rows as int),
    {
        let ghost before = self@;
        let ghost after = before.resize(new_cols as int, new_rows as int);
        self.grid.truncate(new_rows);
        let kept: usize = self.grid.len();
        let mut y: usize = 0;
        while y < kept
            invariant
                before.wf(),
                after == before.resize(new_cols as int, new_rows as int),
                y <= kept,
                kept == self.grid@.len(),
                kept == min_int(before.rows, new_rows as int),
                self@ == (TerminalState { screen: self@.screen, ..before }),
                forall|r: int| 0 <= r < y ==> (#[trigger] self.grid@[r])@ == after.screen[r],
                forall|r: int| y <= r < kept ==> (#[trigger] self.grid@[r])@ == before.screen[r],
            decreases kept - y,
        {
            let ghost rows_before = self.grid@;
            fit_row(&mut self.grid[y], new_cols);
            assert(self.grid@ =~= rows_before.update(y as int, self.grid@[y as int]));
            assert(self.grid@[y as int]@ =~= after.screen[y as int]);
            y += 1;
        }
        while self.grid.len() < new_rows
            invariant
                before.wf(),
                after == before.resize(new_cols as int, new_rows as int),
                min_int(before.rows, new_rows as int) <= self.grid@.len() <= new_rows,
                self@ == (TerminalState { screen: self@.screen, ..before }),
                forall|r: int| 0 <= r < self.grid@.len() ==> (#[trigger] self.grid@[r])@ == after.screen[r],
            decreases new_rows - self.grid@.len(),
        {
            let row = filled_row(Cell::default(), new_cols);
            assert(row@ =~= after.screen[self.grid@.len() as int]);
            self.grid.push(row);
        }
        self.rows = new_rows;
        self.cols = new_cols;
        self.scroll_top = 0;
        self.scroll_bottom = new_rows - 1;
        if self.cursor_x > new_cols - 1 {
            self.cursor_x = new_cols - 1;
        }
        if self.cursor_y > new_rows - 1 {
            self.cursor_y = new_rows - 1;
        }
        self.scroll_offset = 0;
        assert(self@.screen =~~= after.screen);
    }

    /// A space in the pen's colors.
    pub fn blank_cell(&self) -> (cell: Cell)
        ensures
            cell == self@.blank_cell(),
    {
        Cell { char: ' ', fg: self.current_fg, bg: self.current_bg, inverse: self.current_inverse }
    }

    /// Line feed: at the bottom margin the scroll region moves up by one
    /// row, and the row that leaves is retired to the scrollback when the
    /// region starts at the first screen row; anywhere else the cursor
    /// moves down one row, stopping at the last. The column is kept.
    pub fn new_line(&mut self)
        requires
            old(self).wf(),
        ensures
            final(self).wf(),
            final(self)@ == old(self)@.new_line(),
    {
        if self.cursor_y == self.scroll_bottom {
            let removed = self.grid.remove(self.scroll_top);
            if self.scroll_top == 0 {
                if self.history.len() >= HISTORY_LIMIT {
                    self.history.remove(0);
                }
                self.history.push(removed);
            }
            let blank = filled_row(self.blank_cell(), self.cols);
            self.grid.insert(self.scroll_bottom, blank);
            assert(self@.screen =~~= old(self)@.new_line().screen);
            assert(self@.history =~~= old(self)@.new_line().history);
        } else {
            self.cursor_y += 1;
            if self.cursor_y >= self.rows {
                self.cursor_y = self.rows - 1;
            }
        }
    }

    /// Writes glyph `c` with the pen at the cursor, wrapping first when the
    /// cursor sits past the last column, and advances the cursor.
    pub fn print(&mut self, c: char)
        requires
            old(self).wf(),
        ensures
            final(self).wf(),
            final(self)@ == old(self)@.print(c),
    {
        if self.cursor_x >= self.cols {
            self.new_line();
            self.cursor_x = 0;
        }
        let cell = Cell { char: c, fg: self.current_fg, bg: self.current_bg, inverse: self.current_inverse };
        self.grid[self.cursor_y][self.cursor_x] = cell;
        self.cursor_x += 1;
        assert(self@.screen =~~= old(self)@.print(c).screen);
    }
}

} // verus!
