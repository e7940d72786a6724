//! Properties that relate several renderer operations, stated and proved
//! over the same specification functions the renderers' contracts use.

use vstd::prelude::*;

use crate::lazy::lemma_changed_upto_zero;
use crate::lazy::redraw_line_ops;
use crate::lazy::spec_redraw_ops;
use crate::ops::horizontal_ops;
use crate::ops::ops_view;
use crate::ops::vertical_ops;
use crate::ops::OpView;
use crate::renderer::clamped_index;
use crate::renderer::clear_ops;
use crate::renderer::full_draw_ops;
use crate::renderer::line_ops;
use crate::renderer::FullRenderer;
use crate::renderer::PreviousDrawState;
use crate::renderer::Renderer;
use crate::state::Cursor;
use crate::state::Gutter;
use crate::state::TermState;

verus! {

/// Idempotence: after a redraw has brought the snapshot in line with the
/// buffer and left the shadow cursor at the logical cursor or at its
/// clamped image, an immediate second redraw issues no terminal operations.
pub proof fn lemma_redraw_idempotent<G: Gutter>(
    g: Option<G>,
    pds: PreviousDrawState,
    t: TermState,
)
    requires
        t.wf(),
        pds.cursor == t.cursor || (t.lines().len() > 0 && pds.cursor.line == t.cursor.line
            && pds.cursor.index as int == clamped_index(t)),
    ensures
        spec_redraw_ops(g, t.lines(), pds, t) == Seq::<OpView>::empty(),
{
    lemma_changed_upto_zero(t.lines(), t.lines(), t.lines().len() as int);
    assert(spec_redraw_ops(g, t.lines(), pds, t) =~= Seq::<OpView>::empty());
}

/// Round trip: a clear followed by a draw forgets the interleaved history.
/// From any two states a full renderer may have reached, `redraw` issues
/// each state's own clearing prefix and then exactly the operations of a
/// direct draw of the final buffer, and both runs leave the same shadow
/// state: the screen ends as a single direct draw would leave it.
pub proof fn lemma_round_trip<G: Gutter>(
    r1: FullRenderer<G>,
    r2: FullRenderer<G>,
    post1: FullRenderer<G>,
    post2: FullRenderer<G>,
    t: TermState,
)
    requires
        r1.gutter == r2.gutter,
        r1.redraw_ens(t, post1),
        r2.redraw_ens(t, post2),
    ensures
        post1.pds == post2.pds,
        ops_view(post1.out@).skip(
            (ops_view(r1.out@).len() + clear_ops(r1.pds).len()) as int,
        ) == full_draw_ops(r1.gutter, t),
        ops_view(post2.out@).skip(
            (ops_view(r2.out@).len() + clear_ops(r2.pds).len()) as int,
        ) == full_draw_ops(r2.gutter, t),
{
    assert(ops_view(post1.out@).skip(
        (ops_view(r1.out@).len() + clear_ops(r1.pds).len()) as int,
    ) =~= full_draw_ops(r1.gutter, t));
    assert(ops_view(post2.out@).skip(
        (ops_view(r2.out@).len() + clear_ops(r2.pds).len()) as int,
    ) =~= full_draw_ops(r2.gutter, t));
}

/// The row the cursor moves to when `op` runs with the cursor on `row`.
pub open spec fn row_step(op: OpView, row: int) -> int {
    match op {
        OpView::MoveUp(n) => row - n,
        OpView::MoveDown(n) => row + n,
        OpView::WriteLine(s) => row + 1,
        OpView::ClearLastLines(n) => row - n,
        _ => row,
    }
}

/// The row the cursor is on after `ops` run, starting from `row`.
pub open spec fn row_after(ops: Seq<OpView>, row: int) -> int
    decreases ops.len(),
{
    if ops.len() == 0 {
        row
    } else {
        row_after(ops.skip(1), row_step(ops[0], row))
    }
}

/// Every operation in `ops`, run with the cursor starting on `row`, leaves
/// rows other than `target` alone: each write or line clear happens with
/// the cursor on `target`, and no line break or multi-line clear occurs.
pub open spec fn touches_only_line(ops: Seq<OpView>, row: int, target: int) -> bool
    decreases ops.len(),
{
    if ops.len() == 0 {
        true
    } else {
        let ok = match ops[0] {
            OpView::Write(s) => row == target,
            OpView::ClearLine => row == target,
            OpView::WriteLine(s) => false,
            OpView::ClearLastLines(n) => false,
            _ => true,
        };
        ok && touches_only_line(ops.skip(1), row_step(ops[0], row), target)
    }
}

proof fn lemma_row_after_add(a: Seq<OpView>, b: Seq<OpView>, row: int)
    ensures
        row_after(a + b, row) == row_after(b, row_after(a, row)),
    decreases a.len(),
{
    if a.len() == 0 {
        assert(a + b =~= b);
    } else {
        assert((a + b).skip(1) =~= a.skip(1) + b);
        lemma_row_after_add(a.skip(1), b, row_step(a[0], row));
    }
}

proof fn lemma_touches_only_add(a: Seq<OpView>, b: Seq<OpView>, row: int, target: int)
    requires
        touches_only_line(a, row, target),
        touches_only_line(b, row_after(a, row), target),
    ensures
        touches_only_line(a + b, row, target),
    decreases a.len(),
{
    if a.len() == 0 {
        assert(a + b =~= b);
    } else {
        assert((a + b).skip(1) =~= a.skip(1) + b);
        lemma_touches_only_add(a.skip(1), b, row_step(a[0], row), target);
    }
}

proof fn lemma_vertical_props(from: nat, to: nat, target: int)
    ensures
        row_after(vertical_ops(from, to), from as int) == to,
        touches_only_line(vertical_ops(from, to), from as int, target),
{
    reveal_with_fuel(row_after, 3);
    reveal_with_fuel(touches_only_line, 3);
    let ops = vertical_ops(from, to);
    if ops.len() > 0 {
        assert(ops.skip(1) =~= Seq::<OpView>::empty());
    }
}

proof fn lemma_horizontal_props(from: nat, to: nat, row: int, target: int)
    ensures
        row_after(horizontal_ops(from, to), row) == row,
        touches_only_line(horizontal_ops(from, to), row, target),
{
    reveal_with_fuel(row_after, 3);
    reveal_with_fuel(touches_only_line, 3);
    let ops = horizontal_ops(from, to);
    if ops.len() > 0 {
        assert(ops.skip(1) =~= Seq::<OpView>::empty());
    }
}

proof fn lemma_line_ops_props<G: Gutter>(g: Option<G>, t: TermState, line: int)
    ensures
        row_after(line_ops(g, t, line), line) == line,
        touches_only_line(line_ops(g, t, line), line, line),
{
    reveal_with_fuel(row_after, 4);
    reveal_with_fuel(touches_only_line, 4);
    let ops = line_ops(g, t, line);
    match g {
        Some(f) => {
            assert(ops.skip(1) =~= seq![OpView::Write(t.lines()[line])]);
            assert(ops.skip(1).skip(1) =~= Seq::<OpView>::empty());
        },
        None => {
            assert(ops =~= seq![OpView::Write(t.lines()[line])]);
            assert(ops.skip(1) =~= Seq::<OpView>::empty());
        },
    }
}

/// A single-line redraw touches only the target line's on-screen content
/// and the cursor: run with the cursor starting on the shadow line, every
/// write and line clear it issues happens with the cursor on `line`, and it
/// issues no line break and no multi-line clear; everything else is cursor
/// motion.
pub proof fn lemma_single_line_redraw_touches_only<G: Gutter>(
    g: Option<G>,
    t: TermState,
    shadow: Cursor,
    line: int,
)
    requires
        0 <= line,
    ensures
        touches_only_line(redraw_line_ops(g, t, shadow, line), shadow.line as int, line),
{
    reveal_with_fuel(row_after, 3);
    reveal_with_fuel(touches_only_line, 3);
    let v1 = vertical_ops(shadow.line as nat, line as nat);
    let cl = seq![OpView::ClearLine];
    let lo = line_ops(g, t, line);
    let v2 = vertical_ops(line as nat, t.cursor.line as nat);
    let h = horizontal_ops(t.lines()[line].len(), clamped_index(t) as nat);
    lemma_vertical_props(shadow.line as nat, line as nat, line);
    assert(cl.skip(1) =~= Seq::<OpView>::empty());
    assert(touches_only_line(cl, line, line));
    assert(row_after(cl, line) == line);
    lemma_line_ops_props(g, t, line);
    lemma_vertical_props(line as nat, t.cursor.line as nat, line);
    lemma_horizontal_props(
        t.lines()[line].len(),
        clamped_index(t) as nat,
        t.cursor.line as int,
        line,
    );
    lemma_touches_only_add(v1, cl, shadow.line as int, line);
    lemma_row_after_add(v1, cl, shadow.line as int);
    lemma_touches_only_add(v1 + cl, lo, shadow.line as int, line);
    lemma_row_after_add(v1 + cl, lo, shadow.line as int);
    lemma_touches_only_add(v1 + cl + lo, v2, shadow.line as int, line);
    lemma_row_after_add(v1 + cl + lo, v2, shadow.line as int);
    lemma_touches_only_add(v1 + cl + lo + v2, h, shadow.line as int, line);
}

} // verus!
