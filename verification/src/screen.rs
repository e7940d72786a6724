//! A model of the terminal region the engine draws in: what executing a
//! sequence of operations does to the visible rows and the cursor.
//!
//! The model fixes the semantics the engine expects of the primitive layer:
//! writes overwrite in place at the cursor and advance the column; a line
//! break moves to the next row (the terminal scrolls, so a row always
//! exists); clearing a line blanks it and returns the cursor to its start;
//! clearing the last `n` lines blanks the `n` rows above the cursor and
//! leaves the cursor at the start of the topmost blanked row.

use vstd::prelude::*;

use crate::ops::horizontal_ops;
use crate::ops::vertical_ops;
use crate::ops::OpView;
use crate::renderer::block_ops_upto;
use crate::renderer::clamped_index;
use crate::renderer::clear_ops;
use crate::renderer::full_draw_ops;
use crate::renderer::line_ops;
use crate::renderer::sep_ops;
use crate::renderer::PreviousDrawState;
use crate::lazy::redraw_line_ops;
use crate::state::Cursor;
use crate::state::Gutter;
use crate::state::TermState;

verus! {

/// The drawn region: its rows' visible text and the cursor position.
#[verifier::ext_equal]
pub struct Screen {
    pub rows: Seq<Seq<char>>,
    pub row: int,
    pub col: int,
}

/// `line` extended with spaces to at least `col` columns.
pub open spec fn pad_to(line: Seq<char>, col: int) -> Seq<char> {
    if line.len() >= col {
        line
    } else {
        line + Seq::new((col - line.len()) as nat, |i: int| ' ')
    }
}

/// `txt` written over `line` starting at column `col`.
pub open spec fn overwrite(line: Seq<char>, col: int, txt: Seq<char>) -> Seq<char> {
    let base = pad_to(line, col);
    base.take(col) + txt + (if base.len() > col + txt.len() {
        base.skip(col + txt.len())
    } else {
        Seq::empty()
    })
}

/// The rows with those in `[from, to)` blanked.
pub open spec fn clear_range(rows: Seq<Seq<char>>, from: int, to: int) -> Seq<Seq<char>> {
    Seq::new(rows.len(), |i: int| if from <= i < to { Seq::empty() } else { rows[i] })
}

/// `h` blank rows.
pub open spec fn blank_rows(h: int) -> Seq<Seq<char>> {
    Seq::new(h as nat, |i: int| Seq::empty())
}

/// One operation's effect on the screen.
pub open spec fn apply_op(s: Screen, op: OpView) -> Screen {
    match op {
        OpView::Write(txt) => Screen {
            rows: s.rows.update(s.row, overwrite(s.rows[s.row], s.col, txt)),
            row: s.row,
            col: s.col + txt.len(),
        },
        OpView::WriteLine(txt) => {
            let rows1 = s.rows.update(s.row, overwrite(s.rows[s.row], s.col, txt));
            let rows2 = if s.row + 1 == rows1.len() {
                rows1.push(Seq::empty())
            } else {
                rows1
            };
            Screen { rows: rows2, row: s.row + 1, col: 0 }
        },
        OpView::ClearLine => Screen {
            rows: s.rows.update(s.row, Seq::empty()),
            row: s.row,
            col: 0,
        },
        OpView::ClearLastLines(n) => Screen {
            rows: clear_range(s.rows, s.row - n, s.row),
            row: s.row - n,
            col: 0,
        },
        OpView::MoveUp(n) => Screen { rows: s.rows, row: s.row - n, col: s.col },
        OpView::MoveDown(n) => Screen { rows: s.rows, row: s.row + n, col: s.col },
        OpView::MoveLeft(n) => Screen { rows: s.rows, row: s.row, col: s.col - n },
        OpView::MoveRight(n) => Screen { rows: s.rows, row: s.row, col: s.col + n },
    }
}

/// The screen after `ops` run in order.
pub open spec fn apply_ops(s: Screen, ops: Seq<OpView>) -> Screen
    decreases ops.len(),
{
    if ops.len() == 0 {
        s
    } else {
        apply_ops(apply_op(s, ops[0]), ops.skip(1))
    }
}

pub proof fn lemma_apply_ops_add(s: Screen, a: Seq<OpView>, b: Seq<OpView>)
    ensures
        apply_ops(s, a + b) == apply_ops(apply_ops(s, a), b),
    decreases a.len(),
{
    if a.len() == 0 {
        assert(a + b =~= b);
    } else {
        assert((a + b).skip(1) =~= a.skip(1) + b);
        lemma_apply_ops_add(apply_op(s, a[0]), a.skip(1), b);
    }
}

proof fn lemma_apply_vertical(s: Screen, from: nat, to: nat)
    ensures
        apply_ops(s, vertical_ops(from, to)) == (Screen {
            rows: s.rows,
            row: s.row + to - from,
            col: s.col,
        }),
{
    reveal_with_fuel(apply_ops, 3);
    let ops = vertical_ops(from, to);
    if ops.len() > 0 {
        assert(ops.skip(1) =~= Seq::<OpView>::empty());
    }
    assert(apply_ops(s, ops) =~= (Screen { rows: s.rows, row: s.row + to - from, col: s.col }));
}

proof fn lemma_apply_horizontal(s: Screen, from: nat, to: nat)
    ensures
        apply_ops(s, horizontal_ops(from, to)) == (Screen {
            rows: s.rows,
            row: s.row,
            col: s.col + to - from,
        }),
{
    reveal_with_fuel(apply_ops, 3);
    let ops = horizontal_ops(from, to);
    if ops.len() > 0 {
        assert(ops.skip(1) =~= Seq::<OpView>::empty());
    }
    assert(apply_ops(s, ops) =~= (Screen { rows: s.rows, row: s.row, col: s.col + to - from }));
}

/// The gutter text of `line`: empty when no gutter is configured.
pub open spec fn gutter_text<G: Gutter>(g: Option<G>, line: int, t: TermState) -> Seq<char> {
    match g {
        Some(f) => f.spec_render(line, t),
        None => Seq::empty(),
    }
}

/// What a drawn line shows on screen: its gutter text, then its content.
pub open spec fn rendered_line<G: Gutter>(g: Option<G>, t: TermState, line: int) -> Seq<char> {
    gutter_text(g, line, t) + t.lines()[line]
}

proof fn lemma_apply_line_ops<G: Gutter>(g: Option<G>, t: TermState, line: int, s: Screen)
    requires
        0 <= s.row < s.rows.len(),
        s.rows[s.row] == Seq::<char>::empty(),
        s.col == 0,
    ensures
        apply_ops(s, line_ops(g, t, line)) == (Screen {
            rows: s.rows.update(s.row, rendered_line(g, t, line)),
            row: s.row,
            col: rendered_line(g, t, line).len() as int,
        }),
{
    reveal_with_fuel(apply_ops, 4);
    let ops = line_ops(g, t, line);
    let gt = gutter_text(g, line, t);
    let content = t.lines()[line];
    assert(overwrite(Seq::<char>::empty(), 0, gt) =~= gt);
    match g {
        Some(f) => {
            assert(ops.skip(1) =~= seq![OpView::Write(content)]);
            assert(ops.skip(1).skip(1) =~= Seq::<OpView>::empty());
            let s1 = apply_op(s, ops[0]);
            assert(s1.rows[s.row] == gt);
            assert(overwrite(gt, gt.len() as int, content) =~= gt + content);
            assert(s1.rows.update(s.row, gt + content) =~= s.rows.update(s.row, gt + content));
            assert(apply_ops(s, ops) =~= (Screen {
                rows: s.rows.update(s.row, rendered_line(g, t, line)),
                row: s.row,
                col: rendered_line(g, t, line).len() as int,
            }));
        },
        None => {
            assert(ops =~= seq![OpView::Write(content)]);
            assert(ops.skip(1) =~= Seq::<OpView>::empty());
            assert(rendered_line(g, t, line) =~= content);
            assert(apply_ops(s, ops) =~= (Screen {
                rows: s.rows.update(s.row, rendered_line(g, t, line)),
                row: s.row,
                col: rendered_line(g, t, line).len() as int,
            }));
        },
    }
}

/// Clearing a drawn block blanks every one of its rows and leaves the
/// cursor at the region's top-left corner, whatever the rows showed.
pub proof fn lemma_clear_draw_blanks_screen(s: Screen, pds: PreviousDrawState)
    requires
        pds.cursor.line < pds.height,
        s.rows.len() == pds.height,
        s.row == pds.cursor.line,
    ensures
        apply_ops(s, clear_ops(pds)) == (Screen {
            rows: blank_rows(pds.height as int),
            row: 0,
            col: 0,
        }),
{
    reveal_with_fuel(apply_ops, 4);
    let h = pds.height as int;
    let d = crate::ops::down_ops((pds.height - pds.cursor.line - 1) as nat);
    let tail = seq![OpView::ClearLine, OpView::ClearLastLines((pds.height - 1) as nat)];
    lemma_apply_ops_add(s, d, tail);
    if d.len() > 0 {
        assert(d.skip(1) =~= Seq::<OpView>::empty());
    }
    assert(tail.skip(1) =~= seq![OpView::ClearLastLines((pds.height - 1) as nat)]);
    assert(tail.skip(1).skip(1) =~= Seq::<OpView>::empty());
    let s1 = apply_ops(s, d);
    assert(s1.row == h - 1);
    let s3 = apply_ops(s1, tail);
    assert(s3.rows =~= blank_rows(h));
    assert(apply_ops(s, clear_ops(pds)) =~= (Screen { rows: blank_rows(h), row: 0, col: 0 }));
}

/// The region's height once `used` rows have been drawn into a region of
/// `h` rows: the terminal scrolls, so the region grows past `h` if needed.
pub open spec fn grown(h: int, used: int) -> int {
    if h >= used {
        h
    } else {
        used
    }
}

/// The rows a partial draw shows: the first `i` lines rendered, every row
/// after them still blank, in a region of `len` rows.
pub open spec fn drawn_rows<G: Gutter>(g: Option<G>, t: TermState, i: int, len: int) -> Seq<
    Seq<char>,
> {
    Seq::new(
        len as nat,
        |j: int|
            if 0 <= j < i {
                rendered_line(g, t, j)
            } else {
                Seq::empty()
            },
    )
}

proof fn lemma_overwrite_at_end(line: Seq<char>)
    ensures
        overwrite(line, line.len() as int, Seq::<char>::empty()) == line,
{
    assert(overwrite(line, line.len() as int, Seq::<char>::empty()) =~= line);
}

proof fn lemma_apply_block<G: Gutter>(g: Option<G>, t: TermState, i: int, h: int)
    requires
        1 <= h,
        0 < i <= t.lines().len(),
    ensures
        ({
            let n = t.lines().len() as int;
            let end = apply_ops(
                Screen { rows: blank_rows(h), row: 0, col: 0 },
                block_ops_upto(g, t, i),
            );
            if i < n {
                end == (Screen { rows: drawn_rows(g, t, i, grown(h, i + 1)), row: i, col: 0 })
            } else {
                end == (Screen {
                    rows: drawn_rows(g, t, n, grown(h, n)),
                    row: n - 1,
                    col: rendered_line(g, t, n - 1).len() as int,
                })
            }
        }),
    decreases i,
{
    reveal_with_fuel(apply_ops, 3);
    let n = t.lines().len() as int;
    let start = Screen { rows: blank_rows(h), row: 0, col: 0 };
    let prev_ops = block_ops_upto(g, t, i - 1);
    let lo = line_ops(g, t, i - 1);
    let sep = sep_ops(t, i - 1);
    lemma_apply_ops_add(start, prev_ops, lo);
    lemma_apply_ops_add(start, prev_ops + lo, sep);
    assert(block_ops_upto(g, t, i) == prev_ops + lo + sep);
    let prev: Screen = if i == 1 {
        assert(prev_ops =~= Seq::<OpView>::empty());
        assert(apply_ops(start, prev_ops) == start);
        assert(start.rows =~= drawn_rows(g, t, 0, grown(h, 1)));
        start
    } else {
        lemma_apply_block(g, t, i - 1, h);
        apply_ops(start, prev_ops)
    };
    // before line `i - 1` is drawn: its row exists and is blank
    assert(prev.rows =~= drawn_rows(g, t, i - 1, grown(h, i)));
    assert(prev.row == i - 1 && prev.col == 0);
    assert(prev.rows[i - 1] == Seq::<char>::empty());
    lemma_apply_line_ops(g, t, i - 1, prev);
    let mid = apply_ops(prev, lo);
    assert(mid.rows =~= prev.rows.update(i - 1, rendered_line(g, t, i - 1)));
    if i < n {
        // a separator follows: the written row is unchanged by the empty
        // write, the cursor moves to the next row, and the region grows
        // by one row exactly when the break happens on its last row
        assert(sep =~= seq![OpView::WriteLine(Seq::<char>::empty())]);
        lemma_overwrite_at_end(rendered_line(g, t, i - 1));
        let end = apply_ops(mid, sep);
        assert(end.rows =~= drawn_rows(g, t, i, grown(h, i + 1)));
        assert(end == (Screen { rows: drawn_rows(g, t, i, grown(h, i + 1)), row: i, col: 0 }));
    } else {
        assert(sep =~= Seq::<OpView>::empty());
        assert(apply_ops(mid, sep) == mid);
        assert(mid.rows =~= drawn_rows(g, t, n, grown(h, n)));
    }
}

/// A full draw on a blank region of at least one row shows exactly the
/// rendered lines — each row its gutter text then its content — with the
/// blank remainder of the region untouched; the cursor ends on the logical
/// cursor's row, at the clamped index offset into the last-drawn line's
/// text region. For an empty buffer only line 0's gutter text appears.
pub proof fn lemma_draw_on_blank_screen<G: Gutter>(g: Option<G>, t: TermState, h: int)
    requires
        1 <= h,
        t.wf(),
    ensures
        ({
            let end = apply_ops(
                Screen { rows: blank_rows(h), row: 0, col: 0 },
                full_draw_ops(g, t),
            );
            let n = t.lines().len() as int;
            if n == 0 {
                end == (Screen {
                    rows: blank_rows(h).update(0, gutter_text(g, 0, t)),
                    row: 0,
                    col: gutter_text(g, 0, t).len() as int,
                })
            } else {
                end == (Screen {
                    rows: drawn_rows(g, t, n, grown(h, n)),
                    row: t.cursor.line as int,
                    col: gutter_text(g, n - 1, t).len() + clamped_index(t),
                })
            }
        }),
{
    reveal_with_fuel(apply_ops, 3);
    let start = Screen { rows: blank_rows(h), row: 0, col: 0 };
    let n = t.lines().len() as int;
    if n == 0 {
        let gops = crate::renderer::gutter_ops(g, 0, t);
        match g {
            Some(f) => {
                assert(gops.skip(1) =~= Seq::<OpView>::empty());
                assert(overwrite(Seq::<char>::empty(), 0, f.spec_render(0, t)) =~= f.spec_render(
                    0,
                    t,
                ));
            },
            None => {
                assert(start.rows.update(0, gutter_text(g, 0, t)) =~= start.rows);
            },
        }
    } else {
        let blk = block_ops_upto(g, t, n);
        let v = vertical_ops((n - 1) as nat, t.cursor.line as nat);
        let hz = horizontal_ops(t.lines()[n - 1].len(), clamped_index(t) as nat);
        lemma_apply_ops_add(start, blk, v);
        lemma_apply_ops_add(start, blk + v, hz);
        lemma_apply_block(g, t, n, h);
        let s1 = apply_ops(start, blk);
        lemma_apply_vertical(s1, (n - 1) as nat, t.cursor.line as nat);
        let s2 = apply_ops(s1, v);
        lemma_apply_horizontal(s2, t.lines()[n - 1].len(), clamped_index(t) as nat);
        assert(full_draw_ops(g, t) == blk + v + hz);
    }
}

/// Round trip on the screen: from any screen consistent with the shadow
/// state, clearing the drawn block and then drawing the final buffer shows
/// exactly what a direct draw of that buffer on the blank region shows —
/// nothing of the history survives.
pub proof fn lemma_round_trip_screen<G: Gutter>(
    g: Option<G>,
    t: TermState,
    s: Screen,
    pds: PreviousDrawState,
)
    requires
        t.wf(),
        pds.cursor.line < pds.height,
        s.rows.len() == pds.height,
        s.row == pds.cursor.line,
    ensures
        apply_ops(s, clear_ops(pds) + full_draw_ops(g, t)) == apply_ops(
            Screen { rows: blank_rows(pds.height as int), row: 0, col: 0 },
            full_draw_ops(g, t),
        ),
{
    lemma_apply_ops_add(s, clear_ops(pds), full_draw_ops(g, t));
    lemma_clear_draw_blanks_screen(s, pds);
}

/// A single-line redraw rewrites only the target row: every other row keeps
/// its content, the target row becomes its gutter text and new content, and
/// the cursor ends on the logical cursor's line, at the clamped index
/// offset into the target line's own text region.
pub proof fn lemma_redraw_line_screen<G: Gutter>(
    g: Option<G>,
    t: TermState,
    s: Screen,
    shadow: Cursor,
    line: int,
)
    requires
        0 <= line < s.rows.len(),
        line < t.lines().len(),
        s.row == shadow.line,
    ensures
        apply_ops(s, redraw_line_ops(g, t, shadow, line)) == (Screen {
            rows: s.rows.update(line, rendered_line(g, t, line)),
            row: t.cursor.line as int,
            col: gutter_text(g, line, t).len() + clamped_index(t),
        }),
{
    reveal_with_fuel(apply_ops, 3);
    let v1 = vertical_ops(shadow.line as nat, line as nat);
    let cl = seq![OpView::ClearLine];
    let lo = line_ops(g, t, line);
    let v2 = vertical_ops(line as nat, t.cursor.line as nat);
    let h = horizontal_ops(t.lines()[line].len(), clamped_index(t) as nat);
    lemma_apply_ops_add(s, v1, cl);
    lemma_apply_ops_add(s, v1 + cl, lo);
    lemma_apply_ops_add(s, v1 + cl + lo, v2);
    lemma_apply_ops_add(s, v1 + cl + lo + v2, h);
    lemma_apply_vertical(s, shadow.line as nat, line as nat);
    let s1 = apply_ops(s, v1);
    assert(cl.skip(1) =~= Seq::<OpView>::empty());
    let s2 = apply_ops(s1, cl);
    assert(s2.rows[line] == Seq::<char>::empty());
    lemma_apply_line_ops(g, t, line, s2);
    let s3 = apply_ops(s2, lo);
    lemma_apply_vertical(s3, line as nat, t.cursor.line as nat);
    let s4 = apply_ops(s3, v2);
    lemma_apply_horizontal(s4, t.lines()[line].len(), clamped_index(t) as nat);
    assert(s3.rows =~= s.rows.update(line, rendered_line(g, t, line)));
    assert(apply_ops(s, redraw_line_ops(g, t, shadow, line)) =~= (Screen {
        rows: s.rows.update(line, rendered_line(g, t, line)),
        row: t.cursor.line as int,
        col: gutter_text(g, line, t).len() + clamped_index(t),
    }));
}

} // verus!
