//! What a run of plain glyphs does to a terminal: where the cursor ends,
//! how far the screen scrolls, and which glyphs it shows afterwards.

use vstd::prelude::*;
use vstd::arithmetic::div_mod::{
    lemma_fundamental_div_mod, lemma_fundamental_div_mod_converse_div,
    lemma_fundamental_div_mod_converse_mod,
};
use crate::cell::Cell;
use crate::laws::lemma_new_line_wf;
use crate::state::{min_int, TerminalState, HISTORY_LIMIT};

verus! {

/// Cells are numbered row by row: with `c` cells to a row, a cell in column
/// `x` of row `a` comes before column `y` of row `b` exactly when its row
/// is higher up, or the row is the same and its column further left.
pub proof fn lemma_cell_order(c: int, a: int, x: int, b: int, y: int)
    requires
        c >= 1,
        0 <= x < c,
        0 <= y <= c,
    ensures
        (a * c + x < b * c + y) <==> (a < b || (a == b && x < y)),
{
    assert(a < b ==> a * c + c <= b * c) by (nonlinear_arith)
        requires
            c >= 1,
    ;
    assert(a > b ==> a * c >= b * c + c) by (nonlinear_arith)
        requires
            c >= 1,
    ;
}

/// The first cell of the next row follows the last cell of a row.
pub proof fn lemma_next_row(a: int, c: int)
    ensures
        (a + 1) * c == a * c + c,
{
    assert((a + 1) * c == a * c + c) by (nonlinear_arith);
}

/// The cell that position (`r`, `x`) shows after `glyphs` were printed from
/// the home position of `s` and the screen scrolled `k` times: the glyph
/// whose number the position has, or what `s` held there, or a blank.
pub open spec fn shown(s: TerminalState, glyphs: Seq<char>, k: int, r: int, x: int) -> Cell {
    let index = (k + r) * s.cols + x;
    if index < glyphs.len() {
        s.inked(glyphs[index])
    } else if k + r < s.rows {
        s.screen[k + r][x]
    } else {
        s.blank_cell()
    }
}

/// How often the screen scrolls while `glyphs` are printed: once for every
/// glyph that arrives with the cursor waiting past the last column of the
/// bottom margin's row.
pub open spec fn scroll_count(s: TerminalState, glyphs: Seq<char>) -> int
    decreases glyphs.len(),
{
    if glyphs.len() == 0 {
        0
    } else {
        let before = s.print_all(glyphs.drop_last());
        scroll_count(s, glyphs.drop_last()) + (if before.cursor_x >= before.cols && before.cursor_y
            == before.scroll_bottom {
            1int
        } else {
            0int
        })
    }
}

/// How many rows have scrolled away once `n` glyphs are printed from the
/// home position of a screen of `cols` by `rows` cells: none while the
/// glyphs fit, then one for every row begun beyond the screen.
pub open spec fn scrolled(n: int, cols: int, rows: int) -> int {
    if n >= cols * rows {
        (n - cols * rows + cols - 1) / cols
    } else {
        0
    }
}

/// What the scrollback holds after `glyphs` were printed from the home
/// position of `s` and the screen scrolled `k` times, as long as the
/// scrollback had room for the `k` rows: the rows it held, then the first
/// `k` rows of glyphs, each glyph in the pen's colors.
pub open spec fn retired(s: TerminalState, glyphs: Seq<char>, k: int) -> bool {
    let t = s.print_all(glyphs);
    let h = s.history.len() as int;
    h + k <= HISTORY_LIMIT ==> {
        &&& t.history.len() == h + k
        &&& forall|r: int| 0 <= r < h ==> #[trigger] t.history[r] == s.history[r]
        &&& forall|r: int| h <= r < h + k ==> (#[trigger] t.history[r]).len() == s.cols
        &&& forall|r: int, x: int|
            h <= r < h + k && 0 <= x < s.cols ==> #[trigger] t.history[r][x] == s.inked(
                glyphs[(r - h) * s.cols + x],
            )
    }
}

/// How the state after printing `glyphs` relates to the state `s` before,
/// when the screen scrolled `k` times on the way.
pub open spec fn typed(s: TerminalState, glyphs: Seq<char>, k: int) -> bool {
    let t = s.print_all(glyphs);
    let n = glyphs.len() as int;
    &&& t.wf()
    &&& t.cols == s.cols
    &&& t.rows == s.rows
    &&& t.margins_default()
    &&& t.fg == s.fg
    &&& t.bg == s.bg
    &&& t.inverse == s.inverse
    &&& k >= 0
    &&& (n == 0 ==> t == s && k == 0)
    &&& (n >= 1 ==> 1 <= t.cursor_x <= s.cols && n == (k + t.cursor_y) * s.cols + t.cursor_x)
    &&& (k > 0 ==> t.cursor_y == s.rows - 1)
    &&& t.history.len() == min_int(s.history.len() + k, HISTORY_LIMIT as int)
    &&& forall|r: int, x: int|
        0 <= r < s.rows && 0 <= x < s.cols ==> #[trigger] t.screen[r][x] == shown(s, glyphs, k, r, x)
}

/// Printing from the home position of a screen with default margins fills
/// the cells in reading order and scrolls one row each time the last row
/// is full and another glyph arrives.
pub proof fn lemma_typed(s: TerminalState, glyphs: Seq<char>) -> (k: int)
    requires
        s.wf(),
        s.cursor_x == 0,
        s.cursor_y == 0,
        s.margins_default(),
    ensures
        typed(s, glyphs, k),
        k == scroll_count(s, glyphs),
    decreases glyphs.len(),
{
    let c = s.cols;
    if glyphs.len() == 0 {
        assert forall|r: int, x: int| 0 <= r < s.rows && 0 <= x < c implies #[trigger] s.screen[r][x]
            == shown(s, glyphs, 0, r, x) by {
            lemma_cell_order(c, r, x, 0, 0);
        }
        return 0;
    }
    let g = glyphs.drop_last();
    let last = glyphs.last();
    let n0 = g.len() as int;
    let k0 = lemma_typed(s, g);
    let t0 = s.print_all(g);
    let t = t0.print(last);
    assert(t == s.print_all(glyphs));
    lemma_new_line_wf(t0);
    assert forall|i: int| 0 <= i < n0 implies g[i] == glyphs[i] by {}
    if t0.cursor_x < c {
        // The glyph lands at the cursor.
        let cy = t0.cursor_y;
        let cx = t0.cursor_x;
        if n0 == 0 {
            assert(0 * c == 0) by (nonlinear_arith);
        }
        assert(n0 == (k0 + cy) * c + cx);
        assert forall|r: int, x: int| 0 <= r < s.rows && 0 <= x < c implies #[trigger] t.screen[r][x]
            == shown(s, glyphs, k0, r, x) by {
            lemma_cell_order(c, k0 + r, x, k0 + cy, cx);
            lemma_cell_order(c, k0 + r, x, k0 + cy, cx + 1);
            assert(t0.screen[r][x] == shown(s, g, k0, r, x));
        }
        k0
    } else if t0.cursor_y < s.rows - 1 {
        // The glyph wraps to the next row.
        let cy = t0.cursor_y;
        lemma_next_row(k0 + cy, c);
        assert(n0 == (k0 + cy + 1) * c);
        assert forall|r: int, x: int| 0 <= r < s.rows && 0 <= x < c implies #[trigger] t.screen[r][x]
            == shown(s, glyphs, k0, r, x) by {
            lemma_cell_order(c, k0 + r, x, k0 + cy + 1, 0);
            lemma_cell_order(c, k0 + r, x, k0 + cy + 1, 1);
            assert(t0.screen[r][x] == shown(s, g, k0, r, x));
        }
        k0
    } else {
        // The glyph wraps on the last row: the screen scrolls.
        let k = k0 + 1;
        lemma_next_row(k0 + s.rows - 1, c);
        assert(n0 == (k0 + s.rows) * c);
        assert forall|r: int, x: int| 0 <= r < s.rows && 0 <= x < c implies #[trigger] t.screen[r][x]
            == shown(s, glyphs, k, r, x) by {
            lemma_cell_order(c, k + r, x, k0 + s.rows, 0);
            lemma_cell_order(c, k + r, x, k0 + s.rows, 1);
            if r < s.rows - 1 {
                assert(t.screen[r][x] == t0.screen[r + 1][x]);
                assert(t0.screen[r + 1][x] == shown(s, g, k0, r + 1, x));
                assert(k0 + (r + 1) == k + r);
            }
        }
        k
    }
}

/// The rows that scroll away while glyphs are printed reach the scrollback
/// in order and as they were printed.
pub proof fn lemma_retired(s: TerminalState, glyphs: Seq<char>)
    requires
        s.wf(),
        s.cursor_x == 0,
        s.cursor_y == 0,
        s.margins_default(),
    ensures
        retired(s, glyphs, scroll_count(s, glyphs)),
    decreases glyphs.len(),
{
    if glyphs.len() == 0 {
        return ;
    }
    let c = s.cols;
    let h = s.history.len() as int;
    let g = glyphs.drop_last();
    let n0 = g.len() as int;
    let t0 = s.print_all(g);
    let t = t0.print(glyphs.last());
    let k0 = lemma_typed(s, g);
    let k = scroll_count(s, glyphs);
    lemma_retired(s, g);
    assert(t == s.print_all(glyphs));
    assert(k0 >= 0);
    if h + k <= HISTORY_LIMIT {
        let scrolls = t0.cursor_x >= t0.cols && t0.cursor_y == t0.scroll_bottom;
        assert(k == k0 + (if scrolls { 1int } else { 0int }));
        assert(t0.history.len() == h + k0);
        if scrolls {
            assert(t.history =~= t0.history.push(t0.screen[0]));
            assert(n0 >= 1);
            lemma_next_row(k0 + s.rows - 1, c);
            assert(n0 == (k0 + s.rows) * c);
        } else {
            assert(t.history == t0.history);
        }
        assert forall|r: int, x: int| h <= r < h + k && 0 <= x < c implies #[trigger] t.history[r][x]
            == s.inked(glyphs[(r - h) * c + x]) by {
            if r < h + k0 {
                assert(t.history[r] == t0.history[r]);
                assert(t0.history[r][x] == s.inked(g[(r - h) * c + x]));
                assert(n0 >= 1);
                lemma_cell_order(c, r - h, x, k0 + t0.cursor_y, t0.cursor_x);
                assert((r - h) * c + x < n0);
            } else {
                assert(r == h + k0);
                assert(t.history[r] == t0.screen[0]);
                assert(t0.screen[0][x] == shown(s, g, k0, 0, x));
                lemma_cell_order(c, k0, x, k0 + s.rows, 0);
                assert((k0 + 0) * c + x < n0);
            }
        }
    }
}

/// Printing `glyphs`, with no control in between, from the home position
/// of a screen with default margins.
///
/// After the first glyph the cursor stands one column right of the last
/// glyph printed, in the deferred-wrap column when that glyph filled its
/// row, and on the row of that glyph, the last row at the lowest. So as
/// long as the glyphs fit the screen and do not end on a full row, the
/// cursor is at column `n mod cols` of row `n div cols`.
///
/// Once the glyphs outnumber the cells, the screen has scrolled once for
/// every row begun beyond the screen, the scrollback has grown by as many
/// rows, up to its limit, and the screen shows every glyph from the first
/// one that did not scroll away, each at the position its number gives.
/// While the scrollback has room, the rows that scrolled away stand in it
/// behind the rows it held, in order, each with the glyphs printed on it.
pub proof fn law_print_run(s: TerminalState, glyphs: Seq<char>)
    requires
        s.wf(),
        s.cursor_x == 0,
        s.cursor_y == 0,
        s.margins_default(),
    ensures
        ({
            let t = s.print_all(glyphs);
            let n = glyphs.len() as int;
            let c = s.cols;
            let k = scrolled(n, c, s.rows);
            &&& t.wf()
            &&& n >= 1 ==> t.cursor_x == (n - 1) % c + 1 && t.cursor_y == min_int(
                (n - 1) / c,
                s.rows - 1,
            )
            &&& n < c * s.rows && (n == 0 || n % c != 0) ==> t.cursor_x == n % c && t.cursor_y == n
                / c
            &&& k == scroll_count(s, glyphs)
            &&& t.history.len() == min_int(s.history.len() + k, HISTORY_LIMIT as int)
            &&& retired(s, glyphs, k)
            &&& forall|i: int|
                k * c <= i < n ==> 0 <= i / c - k < s.rows && t.screen[i / c - k][i % c] == s.inked(
                    #[trigger] glyphs[i],
                )
        }),
{
    let t = s.print_all(glyphs);
    let n = glyphs.len() as int;
    let c = s.cols;
    let rows = s.rows;
    let k0 = lemma_typed(s, glyphs);
    lemma_retired(s, glyphs);
    let k = scrolled(n, c, rows);
    assert(c * rows == rows * c) by (nonlinear_arith);
    if n == 0 {
        assert(rows * c >= 1) by (nonlinear_arith)
            requires
                rows >= 1,
                c >= 1,
        ;
        assert(0int % c == 0 && 0int / c == 0) by {
            lemma_fundamental_div_mod_converse_div(0, c, 0, 0);
            lemma_fundamental_div_mod_converse_mod(0, c, 0, 0);
        }
    } else {
        let q = k0 + t.cursor_y;
        // n - 1 == q * c + (cursor_x - 1)
        lemma_fundamental_div_mod_converse_div(n - 1, c, q, t.cursor_x - 1);
        lemma_fundamental_div_mod_converse_mod(n - 1, c, q, t.cursor_x - 1);
        assert((n - 1) / c == q);
        assert((n - 1) % c == t.cursor_x - 1);
        // How far the screen scrolled.
        lemma_cell_order(c, rows - 1, 0, q, t.cursor_x);
        lemma_cell_order(c, q, t.cursor_x - 1, rows, 0);
        if n >= c * rows {
            // n - c * rows + c - 1 == (q - rows + 1) * c + (cursor_x - 1)
            assert((q - rows + 1) * c == q * c - rows * c + c) by (nonlinear_arith);
            lemma_fundamental_div_mod_converse_div(
                n - c * rows + c - 1,
                c,
                q - rows + 1,
                t.cursor_x - 1,
            );
            assert(k == q - rows + 1);
            assert(q >= rows - 1);
            assert(k == k0);
        } else {
            assert(q < rows);
            assert(k0 == 0);
            if n % c != 0 {
                if t.cursor_x == c {
                    lemma_next_row(q, c);
                    lemma_fundamental_div_mod_converse_mod(n, c, q + 1, 0);
                }
                lemma_fundamental_div_mod_converse_div(n, c, q, t.cursor_x);
                lemma_fundamental_div_mod_converse_mod(n, c, q, t.cursor_x);
            }
        }
    }
    assert(k == k0);
    assert forall|i: int| k * c <= i < n implies 0 <= i / c - k < rows && t.screen[i / c - k][i % c]
        == s.inked(#[trigger] glyphs[i]) by {
        let r = i / c - k;
        let x = i % c;
        lemma_fundamental_div_mod(i, c);
        assert(0 <= x < c) by {
            vstd::arithmetic::div_mod::lemma_mod_bound(i, c);
        }
        assert(c * (i / c) == (i / c) * c) by (nonlinear_arith);
        assert(i == (k + r) * c + x);
        lemma_cell_order(c, k + r, x, k, 0);
        lemma_cell_order(c, k + r, x, k + t.cursor_y, t.cursor_x);
        assert(0 <= r < rows);
        assert(t.screen[r][x] == shown(s, glyphs, k, r, x));
    }
}

} // verus!
