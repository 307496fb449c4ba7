//! Laws of the terminal model: what holds of every state, whatever the
//! input.

use vstd::prelude::*;
use crate::cell::{default_cell, Cell, Color};
use crate::control::{param, selector};
use crate::effect::EffectView;
use crate::state::{push_bounded, TerminalState, HISTORY_LIMIT};

verus! {

/// A well-formed state has `rows` rows of `cols` cells each, its cursor
/// within the screen or in the deferred-wrap column, its margins in order
/// within the screen, and at most `HISTORY_LIMIT` rows of scrollback with the
/// view offset inside it. On a screen of two rows or more the top margin
/// lies strictly above the bottom one.
pub proof fn law_invariants(s: TerminalState)
    requires
        s.wf(),
    ensures
        s.screen.len() == s.rows,
        forall|r: int| 0 <= r < s.rows ==> (#[trigger] s.screen[r]).len() == s.cols,
        0 <= s.cursor_x <= s.cols,
        0 <= s.cursor_y < s.rows,
        0 <= s.scroll_top <= s.scroll_bottom < s.rows,
        s.rows >= 2 ==> s.scroll_top < s.scroll_bottom,
        s.history.len() <= HISTORY_LIMIT,
        0 <= s.scroll_offset <= s.history.len(),
{
}

/// A line feed keeps a state well-formed.
pub proof fn lemma_new_line_wf(s: TerminalState)
    requires
        s.wf(),
    ensures
        s.new_line().wf(),
{
}

/// Printing a glyph keeps a state well-formed.
pub proof fn lemma_print_wf(s: TerminalState, c: char)
    requires
        s.wf(),
    ensures
        s.print(c).wf(),
{
    lemma_new_line_wf(s);
}

/// A C0 control keeps a state well-formed.
pub proof fn lemma_execute_wf(s: TerminalState, byte: u8)
    requires
        s.wf(),
    ensures
        s.execute(byte).wf(),
{
    lemma_new_line_wf(s);
}

/// Rendition parameters change the pen and nothing else.
pub proof fn lemma_render_all_pen_only(s: TerminalState, params: Seq<u16>)
    ensures
        s.render_all(params) == (TerminalState {
            fg: s.render_all(params).fg,
            bg: s.render_all(params).bg,
            inverse: s.render_all(params).inverse,
            ..s
        }),
    decreases params.len(),
{
    if params.len() > 0 {
        lemma_render_all_pen_only(s, params.drop_last());
    }
}

/// Erasing keeps a state well-formed.
pub proof fn lemma_erase_wf(s: TerminalState, mode: int)
    requires
        s.wf(),
    ensures
        s.erase_display(mode).wf(),
        s.erase_line(mode).wf(),
{
}

/// Inserting and deleting rows keeps a state well-formed.
pub proof fn lemma_lines_wf(s: TerminalState, n: int)
    requires
        s.wf(),
        n >= 1,
    ensures
        s.insert_lines(n).wf(),
        s.delete_lines(n).wf(),
{
}

/// Inserting and deleting cells keeps a state well-formed.
pub proof fn lemma_chars_wf(s: TerminalState, n: int)
    requires
        s.wf(),
        n >= 1,
    ensures
        s.insert_chars(n).wf(),
        s.delete_chars(n).wf(),
{
}

/// Setting the margins keeps a state well-formed.
pub proof fn lemma_margins_wf(s: TerminalState, params: Seq<u16>, values: int)
    requires
        s.wf(),
    ensures
        s.set_margins(params, values).wf(),
{
}

/// A control sequence keeps a state well-formed.
pub proof fn lemma_csi_wf(s: TerminalState, params: Seq<u16>, intermediates: Seq<u8>, action: char)
    requires
        s.wf(),
    ensures
        s.csi(params, intermediates, action).wf(),
{
    if action == 'J' || action == 'K' {
        lemma_erase_wf(s, selector(params));
    } else if action == 'L' || action == 'M' {
        lemma_lines_wf(s, param(params, 0));
    } else if action == 'P' || action == '@' {
        lemma_chars_wf(s, param(params, 0));
    } else if action == 'r' {
        lemma_margins_wf(s, params, params.len() as int);
    } else if action == 'm' {
        lemma_render_all_pen_only(s, params);
    }
}

/// An operating system command keeps a state well-formed.
pub proof fn lemma_osc_wf(s: TerminalState, params: Seq<Seq<u8>>)
    requires
        s.wf(),
    ensures
        s.osc(params).wf(),
{
}

/// Any one effect keeps a state well-formed.
pub proof fn lemma_apply_wf(s: TerminalState, effect: EffectView)
    requires
        s.wf(),
    ensures
        s.apply(effect).wf(),
{
    match effect {
        EffectView::Print(c) => lemma_print_wf(s, c),
        EffectView::Execute(byte) => lemma_execute_wf(s, byte),
        EffectView::Csi { params, values, intermediates, ignore, action } => {
            lemma_margins_wf(s, params, values);
            lemma_csi_wf(s, params, intermediates, action);
        },
        EffectView::Osc { strings, bell_terminated } => lemma_osc_wf(s, strings),
    }
}

/// Whatever a byte stream decodes into, performing it keeps the invariants:
/// every sequence of effects leads from a well-formed state to a well-formed
/// state.
pub proof fn law_run_keeps_invariants(s: TerminalState, effects: Seq<EffectView>)
    requires
        s.wf(),
    ensures
        s.run(effects).wf(),
    decreases effects.len(),
{
    if effects.len() > 0 {
        law_run_keeps_invariants(s, effects.drop_last());
        lemma_apply_wf(s.run(effects.drop_last()), effects.last());
    }
}

/// Performing `first` and then `second` is performing their concatenation.
pub proof fn lemma_run_concat(s: TerminalState, first: Seq<EffectView>, second: Seq<EffectView>)
    ensures
        s.run(first).run(second) == s.run(first + second),
    decreases second.len(),
{
    if second.len() == 0 {
        assert(first + second =~= first);
    } else {
        lemma_run_concat(s, first, second.drop_last());
        assert((first + second).drop_last() =~= first + second.drop_last());
        assert((first + second).last() == second.last());
    }
}

/// Rows reach the scrollback from one place only: an effect either leaves
/// the scrollback as it is or retires the first screen row to it, and it
/// retires that row only by a line feed at the bottom margin of a scroll
/// region that starts at the first screen row.
pub proof fn law_history_source(s: TerminalState, effect: EffectView)
    requires
        s.wf(),
    ensures
        s.apply(effect).history == s.history || (s.scroll_top == 0 && s.cursor_y == s.scroll_bottom
            && s.apply(effect).history == push_bounded(s.history, s.screen[0])),
{
    match effect {
        EffectView::Csi { params, values, intermediates, ignore, action } => {
            lemma_render_all_pen_only(s, params);
        },
        _ => {},
    }
}

/// Carriage return and line feed on the last screen row retire exactly one
/// row to the scrollback, the first screen row, when the margins span the
/// screen, and leave the scrollback as it is when they do not.
pub proof fn law_crlf_on_last_row(s: TerminalState)
    requires
        s.wf(),
        s.cursor_y == s.rows - 1,
    ensures
        s.margins_default() ==> s.execute(0x0d).execute(0x0a).history == push_bounded(
            s.history,
            s.screen[0],
        ),
        s.margins_default() && s.history.len() < HISTORY_LIMIT ==> s.execute(0x0d).execute(
            0x0a,
        ).history == s.history.push(s.screen[0]),
        !s.margins_default() ==> s.execute(0x0d).execute(0x0a).history == s.history,
        s.execute(0x0d).execute(0x0a).cursor_x == 0,
        s.execute(0x0d).execute(0x0a).cursor_y == s.rows - 1,
{
}

/// Resetting the rendition, selecting red and printing a glyph writes that
/// glyph in red on the default background, not inverted, at the place
/// where printing puts it.
pub proof fn law_red_glyph(s: TerminalState, c: char)
    requires
        s.wf(),
    ensures
        ({
            let pen = s.csi(seq![0u16], Seq::empty(), 'm').csi(seq![31u16], Seq::empty(), 'm');
            let at = pen.wrapped();
            pen.print(c).screen[at.cursor_y][at.cursor_x] == (Cell {
                char: c,
                fg: Color::Red,
                bg: Color::DefaultBg,
                inverse: false,
            })
        }),
{
    let zero = seq![0u16];
    let red = seq![31u16];
    let s0 = s.csi(zero, Seq::empty(), 'm');
    assert(zero.drop_last() =~= Seq::<u16>::empty());
    assert(zero.last() == 0u16);
    assert(s.render_all(zero.drop_last()) == s);
    assert(s0 == s.render(0));
    assert(red.drop_last() =~= Seq::<u16>::empty());
    assert(red.last() == 31u16);
    assert(s0.render_all(red.drop_last()) == s0);
    let pen = s0.csi(red, Seq::empty(), 'm');
    assert(pen == s0.render(31));
    lemma_new_line_wf(pen);
}

/// Erasing the whole display leaves every cell the default cell and the
/// cursor at home.
pub proof fn law_erase_display_all(s: TerminalState)
    requires
        s.wf(),
    ensures
        ({
            let cleared = s.csi(seq![2u16], Seq::empty(), 'J');
            &&& cleared.cursor_x == 0
            &&& cleared.cursor_y == 0
            &&& forall|r: int, x: int|
                0 <= r < s.rows && 0 <= x < s.cols ==> #[trigger] cleared.screen[r][x]
                    == default_cell()
        }),
{
    assert(seq![2u16][0] == 2u16);
}

/// Resizing keeps a state well-formed.
pub proof fn lemma_resize_wf(s: TerminalState, cols: int, rows: int)
    requires
        s.wf(),
        cols >= 1,
        rows >= 1,
    ensures
        s.resize(cols, rows).wf(),
        s.resize(cols, rows).cols == cols,
        s.resize(cols, rows).rows == rows,
{
}

/// Resizing to one size and then to another leaves the cursor within the
/// bounds of the last size; cell contents need not survive.
pub proof fn law_resize_twice(s: TerminalState, cols1: int, rows1: int, cols2: int, rows2: int)
    requires
        s.wf(),
        cols1 >= 1,
        rows1 >= 1,
        cols2 >= 1,
        rows2 >= 1,
    ensures
        ({
            let t = s.resize(cols1, rows1).resize(cols2, rows2);
            &&& t.wf()
            &&& 0 <= t.cursor_x < cols2
            &&& 0 <= t.cursor_y < rows2
        }),
{
    lemma_resize_wf(s, cols1, rows1);
    lemma_resize_wf(s.resize(cols1, rows1), cols2, rows2);
}

/// The glyphs of a row.
pub open spec fn row_text(row: Seq<Cell>) -> Seq<char> {
    Seq::new(row.len(), |x: int| row[x].char)
}

/// The glyphs of the visible rows from the top through `row`, a line feed
/// between one row and the next.
pub open spec fn rows_text(s: TerminalState, row: int) -> Seq<char>
    decreases row,
{
    if row <= 0 {
        row_text(s.visible_row(0))
    } else {
        rows_text(s, row - 1) + seq!['\n'] + row_text(s.visible_row(row))
    }
}

/// With whole rows selected from the top, the lines through `upto` are the
/// text of those rows, followed by a line feed unless `upto` is the last.
proof fn lemma_whole_rows(s: TerminalState, row: int, upto: int)
    requires
        s.wf(),
        0 <= upto <= row,
        forall|r: int| 0 <= r <= row ==> (#[trigger] s.visible_row(r)).len() <= s.cols,
    ensures
        s.selected_lines((0, 0), (s.cols - 1, row), upto) == rows_text(s, upto) + (if upto != row {
            seq!['\n']
        } else {
            Seq::empty()
        }),
    decreases upto,
{
    let first = (0int, 0int);
    let last = (s.cols - 1, row);
    let shown = s.visible_row(upto);
    assert(s.selected_span(first, last, upto) =~= row_text(shown));
    if upto == 0 {
        assert(s.selected_lines(first, last, -1) =~= Seq::<char>::empty());
        assert(s.selected_lines(first, last, 0) =~= rows_text(s, 0) + (if 0 != row {
            seq!['\n']
        } else {
            Seq::empty()
        }));
    } else {
        lemma_whole_rows(s, row, upto - 1);
        assert(s.selected_lines(first, last, upto) =~= rows_text(s, upto) + (if upto != row {
            seq!['\n']
        } else {
            Seq::empty()
        }));
    }
}

/// A selection from the first cell of the screen to the last cell of row
/// `row` yields the text of the visible rows from the top through `row`,
/// separated by line feeds. This holds wherever no visible row in that
/// range is wider than the screen, as on the live screen.
pub proof fn law_select_whole_rows(s: TerminalState, row: int)
    requires
        s.wf(),
        0 <= row < s.rows,
        s.selection_start == Some((0int, 0int)),
        s.selection_end == Some((s.cols - 1, row)),
        forall|r: int| 0 <= r <= row ==> (#[trigger] s.visible_row(r)).len() <= s.cols,
    ensures
        s.selected_text() == rows_text(s, row),
{
    lemma_whole_rows(s, row, row);
    assert(rows_text(s, row) + Seq::<char>::empty() =~= rows_text(s, row));
}

/// On the live screen that selection yields the text of the grid's rows
/// from the first through `row`, separated by line feeds.
pub proof fn law_select_whole_rows_live(s: TerminalState, row: int)
    requires
        s.wf(),
        0 <= row < s.rows,
        s.scroll_offset == 0,
        s.selection_start == Some((0int, 0int)),
        s.selection_end == Some((s.cols - 1, row)),
    ensures
        s.selected_text() == rows_text(s, row),
        forall|r: int| 0 <= r < s.rows ==> #[trigger] s.visible_row(r) == s.screen[r],
{
    assert forall|r: int| 0 <= r < s.rows implies #[trigger] s.visible_row(r) == s.screen[r] by {}
    law_select_whole_rows(s, row);
}

/// The view row by row: on the live screen a visible row is the screen's
/// row; with the view scrolled back by `scroll_offset`, the top
/// `scroll_offset` positions show the newest rows of the scrollback and
/// the positions below them show the screen's rows from the first on.
pub proof fn law_visible_row(s: TerminalState, screen_y: int)
    requires
        s.wf(),
        0 <= screen_y < s.rows,
    ensures
        s.scroll_offset == 0 ==> s.visible_row(screen_y) == s.screen[screen_y],
        ({
            let below = s.rows - 1 - screen_y;
            let reach = s.scroll_offset + below;
            if reach >= s.rows {
                s.visible_row(screen_y) == s.history[s.history.len() - (reach - s.rows + 1)]
            } else {
                s.visible_row(screen_y) == s.screen[s.rows - reach - 1]
            }
        }),
{
}

/// A cell is selected exactly when its row lies strictly between the rows
/// of the selection's two ends, or on the row of an end within that end's
/// column bound; on a selection of a single row the columns form a closed
/// interval.
pub proof fn law_is_selected(s: TerminalState, col: int, row: int)
    requires
        s.selection() is Some,
    ensures
        ({
            let (first, last) = s.selection()->0;
            s.is_selected(col, row) == (if row < first.1 || row > last.1 {
                false
            } else if row == first.1 && row == last.1 {
                first.0 <= col <= last.0
            } else if row == first.1 {
                first.0 <= col
            } else if row == last.1 {
                col <= last.0
            } else {
                true
            })
        }),
{
}

} // verus!
