//! The full renderer: repaints the whole prompt from scratch, keeps the
//! shadow draw state in lock-step with every operation it issues, and clears
//! a previous draw.

use vstd::prelude::*;

use crate::ops::lemma_ops_view_push;
use crate::ops::ops_view;
use crate::ops::down_ops;
use crate::ops::horizontal_ops;
use crate::ops::left_ops;
use crate::ops::right_ops;
use crate::ops::up_ops;
use crate::ops::vertical_ops;
use crate::ops::OpView;
use crate::ops::TermOp;
use crate::state::Cursor;
use crate::state::Gutter;
use crate::state::TermState;

verus! {

/// The shadow state: exactly what is currently on the physical screen and
/// where the physical cursor sits, as last left by this engine. The terminal
/// cannot be queried, so this record is the sole source of truth for the
/// relative cursor arithmetic.
#[derive(Clone, Copy, PartialEq, Eq, Structural, Debug)]
pub struct PreviousDrawState {
    pub height: usize,
    pub cursor: Cursor,
}

/// The shadow state of a screen with nothing drawn on it.
pub open spec fn cleared_pds() -> PreviousDrawState {
    PreviousDrawState { height: 0, cursor: Cursor { line: 0, index: 0 } }
}

impl Default for PreviousDrawState {
    fn default() -> (r: Self)
        ensures
            r == cleared_pds(),
    {
        PreviousDrawState { height: 0, cursor: Cursor { line: 0, index: 0 } }
    }
}

/// The column a draw leaves the cursor at: the logical index, clamped to the
/// cursor line's length so a stale index never overruns the text.
pub open spec fn clamped_index(t: TermState) -> int {
    let len = t.lines()[t.cursor.line as int].len() as int;
    if t.cursor.index as int > len {
        len
    } else {
        t.cursor.index as int
    }
}

/// The operations that draw the gutter of `line`: one write when a gutter is
/// configured, nothing otherwise.
pub open spec fn gutter_ops<G: Gutter>(g: Option<G>, line: int, t: TermState) -> Seq<OpView> {
    match g {
        Some(f) => seq![OpView::Write(f.spec_render(line, t))],
        None => Seq::empty(),
    }
}

/// The operations that draw `line`: its gutter, then its text.
pub open spec fn line_ops<G: Gutter>(g: Option<G>, t: TermState, line: int) -> Seq<OpView> {
    gutter_ops(g, line, t) + seq![OpView::Write(t.lines()[line])]
}

/// The line break after `line`: present on every line but the last.
pub open spec fn sep_ops(t: TermState, line: int) -> Seq<OpView> {
    if line < t.lines().len() - 1 {
        seq![OpView::WriteLine(Seq::empty())]
    } else {
        Seq::empty()
    }
}

/// The operations that draw the first `i` lines, separators included.
pub open spec fn block_ops_upto<G: Gutter>(g: Option<G>, t: TermState, i: int) -> Seq<OpView>
    decreases i,
{
    if i <= 0 {
        Seq::empty()
    } else {
        block_ops_upto(g, t, i - 1) + line_ops(g, t, i - 1) + sep_ops(t, i - 1)
    }
}

/// The operations a full draw of a non-empty buffer issues: every line in
/// order, then the moves that bring the cursor from the end of the last line
/// to the (clamped) logical cursor.
pub open spec fn draw_ops<G: Gutter>(g: Option<G>, t: TermState) -> Seq<OpView> {
    let n = t.lines().len() as int;
    block_ops_upto(g, t, n) + vertical_ops((n - 1) as nat, t.cursor.line as nat)
        + horizontal_ops(t.lines()[n - 1].len(), clamped_index(t) as nat)
}

/// The operations a full draw issues, the empty buffer included: an empty
/// buffer draws only the gutter of line 0.
pub open spec fn full_draw_ops<G: Gutter>(g: Option<G>, t: TermState) -> Seq<OpView> {
    if t.lines().len() == 0 {
        gutter_ops(g, 0, t)
    } else {
        draw_ops(g, t)
    }
}

/// The shadow state a full draw leaves behind: height 1 and an untouched
/// cursor for an empty buffer; otherwise the buffer's height and the clamped
/// logical cursor.
pub open spec fn draw_post_pds(t: TermState, prev: PreviousDrawState) -> PreviousDrawState {
    if t.lines().len() == 0 {
        PreviousDrawState { height: 1, cursor: prev.cursor }
    } else {
        PreviousDrawState {
            height: t.lines().len() as usize,
            cursor: Cursor { line: t.cursor.line, index: clamped_index(t) as usize },
        }
    }
}

/// The operations that clear a drawn block: move to its bottom line, clear
/// that line, then clear the lines above it.
pub open spec fn clear_ops(pds: PreviousDrawState) -> Seq<OpView> {
    down_ops((pds.height - pds.cursor.line - 1) as nat)
        + seq![OpView::ClearLine, OpView::ClearLastLines((pds.height - 1) as nat)]
}

/// A renderer keeps the screen in step with the host state. Each method
/// appends the terminal operations it issues to the renderer's output queue;
/// the host executes them in order.
pub trait Renderer: Sized {
    /// When `draw` may be called.
    spec fn draw_req(&self, term: TermState) -> bool;

    /// What `draw` did: `post` is the renderer afterwards.
    spec fn draw_ens(&self, term: TermState, post: Self) -> bool;

    /// When `redraw` may be called.
    spec fn redraw_req(&self, term: TermState) -> bool;

    /// What `redraw` did.
    spec fn redraw_ens(&self, term: TermState, post: Self) -> bool;

    /// When `clear_draw` may be called.
    spec fn clear_req(&self, term: TermState) -> bool;

    /// What `clear_draw` did.
    spec fn clear_ens(&self, term: TermState, post: Self) -> bool;

    /// Draw the prompt.
    fn draw(&mut self, term: &TermState)
        requires
            old(self).draw_req(*term),
        ensures
            old(self).draw_ens(*term, *final(self)),
    ;

    /// Redraw the screen.
    fn redraw(&mut self, term: &TermState)
        requires
            old(self).redraw_req(*term),
        ensures
            old(self).redraw_ens(*term, *final(self)),
    ;

    /// Clear the drawn prompt on the screen.
    fn clear_draw(&mut self, term: &TermState)
        requires
            old(self).clear_req(*term),
        ensures
            old(self).clear_ens(*term, *final(self)),
    ;
}

/// The full renderer: draws the entire buffer from scratch and owns the
/// shadow state and the queue of operations not yet handed to the host.
pub struct FullRenderer<G: Gutter> {
    /// Shadow of what is on screen.
    pub pds: PreviousDrawState,
    /// The per-line annotation, if one is configured.
    pub gutter: Option<G>,
    /// Operations issued and not yet taken by the host.
    pub out: Vec<TermOp>,
}

impl<G: Gutter> FullRenderer<G> {
    /// A renderer with no gutter, nothing drawn yet.
    pub fn new() -> (r: Self)
        ensures
            r.pds == cleared_pds(),
            r.gutter is None,
            r.out@.len() == 0,
    {
        FullRenderer {
            pds: PreviousDrawState { height: 0, cursor: Cursor { line: 0, index: 0 } },
            gutter: None,
            out: Vec::new(),
        }
    }

    /// A renderer that draws `g` before each line.
    pub fn with_gutter(g: G) -> (r: Self)
        ensures
            r.pds == cleared_pds(),
            r.gutter == Some(g),
            r.out@.len() == 0,
    {
        FullRenderer {
            pds: PreviousDrawState { height: 0, cursor: Cursor { line: 0, index: 0 } },
            gutter: Some(g),
            out: Vec::new(),
        }
    }

    /// The shadow draw state.
    pub fn pds(&self) -> (r: PreviousDrawState)
        ensures
            r == self.pds,
    {
        self.pds
    }

    /// Hand the queued operations to the host and leave the queue empty.
    pub fn take_ops(&mut self) -> (r: Vec<TermOp>)
        ensures
            r == old(self).out,
            final(self).out@.len() == 0,
            final(self).pds == old(self).pds,
            final(self).gutter == old(self).gutter,
    {
        let mut taken: Vec<TermOp> = Vec::new();
        core::mem::swap(&mut taken, &mut self.out);
        taken
    }

    /// Queue one operation, leaving the shadow state alone.
    pub(crate) fn push_op(&mut self, op: TermOp)
        ensures
            final(self).pds == old(self).pds,
            final(self).gutter == old(self).gutter,
            ops_view(final(self).out@) == ops_view(old(self).out@).push(op@),
    {
        proof {
            lemma_ops_view_push(self.out@, op);
        }
        self.out.push(op);
    }

    /// Move the cursor up `n` lines.
    pub fn move_cursor_up(&mut self, n: usize)
        requires
            n <= old(self).pds.cursor.line,
        ensures
            final(self).pds.height == old(self).pds.height,
            final(self).pds.cursor.line == old(self).pds.cursor.line - n,
            final(self).pds.cursor.index == old(self).pds.cursor.index,
            final(self).gutter == old(self).gutter,
            ops_view(final(self).out@) == ops_view(old(self).out@) + up_ops(n as nat),
    {
        if n > 0 {
            self.push_op(TermOp::MoveUp(n));
        }
        self.pds.cursor.line = self.pds.cursor.line - n;
        proof {
            assert(ops_view(self.out@) =~= ops_view(old(self).out@) + up_ops(n as nat));
        }
    }

    /// Move the cursor down `n` lines.
    pub fn move_cursor_down(&mut self, n: usize)
        requires
            old(self).pds.cursor.line + n <= usize::MAX,
        ensures
            final(self).pds.height == old(self).pds.height,
            final(self).pds.cursor.line == old(self).pds.cursor.line + n,
            final(self).pds.cursor.index == old(self).pds.cursor.index,
            final(self).gutter == old(self).gutter,
            ops_view(final(self).out@) == ops_view(old(self).out@) + down_ops(n as nat),
    {
        if n > 0 {
            self.push_op(TermOp::MoveDown(n));
        }
        self.pds.cursor.line = self.pds.cursor.line + n;
        proof {
            assert(ops_view(self.out@) =~= ops_view(old(self).out@) + down_ops(n as nat));
        }
    }

    /// Move the cursor leftward by `n` columns.
    pub fn move_cursor_left(&mut self, n: usize)
        requires
            n <= old(self).pds.cursor.index,
        ensures
            final(self).pds.height == old(self).pds.height,
            final(self).pds.cursor.line == old(self).pds.cursor.line,
            final(self).pds.cursor.index == old(self).pds.cursor.index - n,
            final(self).gutter == old(self).gutter,
            ops_view(final(self).out@) == ops_view(old(self).out@) + left_ops(n as nat),
    {
        if n > 0 {
            self.push_op(TermOp::MoveLeft(n));
        }
        self.pds.cursor.index = self.pds.cursor.index - n;
        proof {
            assert(ops_view(self.out@) =~= ops_view(old(self).out@) + left_ops(n as nat));
        }
    }

    /// Move the cursor rightward by `n` columns.
    pub fn move_cursor_right(&mut self, n: usize)
        requires
            old(self).pds.cursor.index + n <= usize::MAX,
        ensures
            final(self).pds.height == old(self).pds.height,
            final(self).pds.cursor.line == old(self).pds.cursor.line,
            final(self).pds.cursor.index == old(self).pds.cursor.index + n,
            final(self).gutter == old(self).gutter,
            ops_view(final(self).out@) == ops_view(old(self).out@) + right_ops(n as nat),
    {
        if n > 0 {
            self.push_op(TermOp::MoveRight(n));
        }
        self.pds.cursor.index = self.pds.cursor.index + n;
        proof {
            assert(ops_view(self.out@) =~= ops_view(old(self).out@) + right_ops(n as nat));
        }
    }

    /// Move the cursor to `line`: a single up or down move of the absolute
    /// difference from the shadow cursor's line, or nothing if equal.
    pub fn move_cursor_to_line(&mut self, line: usize)
        ensures
            final(self).pds.height == old(self).pds.height,
            final(self).pds.cursor.line == line,
            final(self).pds.cursor.index == old(self).pds.cursor.index,
            final(self).gutter == old(self).gutter,
            ops_view(final(self).out@) == ops_view(old(self).out@) + vertical_ops(
                old(self).pds.cursor.line as nat,
                line as nat,
            ),
    {
        let pds_line = self.pds.cursor.line;
        if pds_line > line {
            self.move_cursor_up(pds_line - line);
        } else if pds_line < line {
            self.move_cursor_down(line - pds_line);
        }
        proof {
            assert(ops_view(self.out@) =~= ops_view(old(self).out@) + vertical_ops(
                old(self).pds.cursor.line as nat,
                line as nat,
            ));
        }
    }

    /// Move the cursor to column `index`: a single left or right move of the
    /// absolute difference from the shadow cursor's column, or nothing.
    pub fn move_cursor_to_index(&mut self, index: usize)
        ensures
            final(self).pds.height == old(self).pds.height,
            final(self).pds.cursor.line == old(self).pds.cursor.line,
            final(self).pds.cursor.index == index,
            final(self).gutter == old(self).gutter,
            ops_view(final(self).out@) == ops_view(old(self).out@) + horizontal_ops(
                old(self).pds.cursor.index as nat,
                index as nat,
            ),
    {
        let pds_index = self.pds.cursor.index;
        if index < pds_index {
            self.move_cursor_left(pds_index - index);
        } else if index > pds_index {
            self.move_cursor_right(index - pds_index);
        }
        proof {
            assert(ops_view(self.out@) =~= ops_view(old(self).out@) + horizontal_ops(
                old(self).pds.cursor.index as nat,
                index as nat,
            ));
        }
    }

    /// Move the cursor to the last line of the drawn block.
    pub fn move_cursor_to_bottom(&mut self)
        requires
            old(self).pds.cursor.line < old(self).pds.height,
        ensures
            final(self).pds.height == old(self).pds.height,
            final(self).pds.cursor.line == old(self).pds.height - 1,
            final(self).pds.cursor.index == old(self).pds.cursor.index,
            final(self).gutter == old(self).gutter,
            ops_view(final(self).out@) == ops_view(old(self).out@) + down_ops(
                (old(self).pds.height - old(self).pds.cursor.line - 1) as nat,
            ),
    {
        let n = self.pds.height - self.pds.cursor.line - 1;
        self.move_cursor_down(n);
    }

    /// Move the cursor's column to the end of the line the logical cursor is
    /// on. Meaningful only while the shadow cursor sits on that line.
    pub fn move_cursor_to_end(&mut self, term: &TermState)
        requires
            term.cursor.line < term.lines().len(),
        ensures
            final(self).pds.height == old(self).pds.height,
            final(self).pds.cursor.line == old(self).pds.cursor.line,
            final(self).pds.cursor.index == term.lines()[term.cursor.line as int].len(),
            final(self).gutter == old(self).gutter,
            ops_view(final(self).out@) == ops_view(old(self).out@) + horizontal_ops(
                old(self).pds.cursor.index as nat,
                term.lines()[term.cursor.line as int].len(),
            ),
    {
        let len = term.current_line_len();
        let idx = self.pds.cursor.index;
        if idx > len {
            self.move_cursor_left(idx - len);
        } else if idx < len {
            self.move_cursor_right(len - idx);
        }
        proof {
            assert(ops_view(self.out@) =~= ops_view(old(self).out@) + horizontal_ops(
                old(self).pds.cursor.index as nat,
                term.lines()[term.cursor.line as int].len(),
            ));
        }
    }

    /// Move the cursor to the beginning of the line, from the logical
    /// cursor's column.
    pub fn move_cursor_to_start(&mut self, term: &TermState)
        requires
            term.cursor.index <= old(self).pds.cursor.index,
        ensures
            final(self).pds.height == old(self).pds.height,
            final(self).pds.cursor.line == old(self).pds.cursor.line,
            final(self).pds.cursor.index == old(self).pds.cursor.index - term.cursor.index,
            final(self).gutter == old(self).gutter,
            ops_view(final(self).out@) == ops_view(old(self).out@) + left_ops(term.cursor.index as nat),
    {
        self.move_cursor_left(term.cursor.index);
    }

    /// Reposition the screen cursor at the logical cursor, the column
    /// clamped to the current line's length.
    pub fn draw_cursor(&mut self, term: &TermState)
        requires
            term.lines().len() > 0,
            term.cursor.line < term.lines().len(),
        ensures
            final(self).pds.height == old(self).pds.height,
            final(self).pds.cursor.line == term.cursor.line,
            final(self).pds.cursor.index as int == clamped_index(*term),
            final(self).gutter == old(self).gutter,
            ops_view(final(self).out@) == ops_view(old(self).out@) + vertical_ops(
                old(self).pds.cursor.line as nat,
                term.cursor.line as nat,
            ) + horizontal_ops(old(self).pds.cursor.index as nat, clamped_index(*term) as nat),
    {
        self.move_cursor_to_line(term.cursor.line);
        let len = term.current_line_len();
        let idx = if term.cursor.index > len {
            len
        } else {
            term.cursor.index
        };
        self.move_cursor_to_index(idx);
        proof {
            assert(ops_view(self.out@) =~= ops_view(old(self).out@) + vertical_ops(
                old(self).pds.cursor.line as nat,
                term.cursor.line as nat,
            ) + horizontal_ops(old(self).pds.cursor.index as nat, clamped_index(*term) as nat));
        }
    }

    /// Draw line `line`: its gutter, if one is configured, then its text.
    /// Does not move the cursor and leaves the shadow state alone.
    pub fn draw_line(&mut self, term: &TermState, line: usize)
        requires
            line < term.lines().len(),
        ensures
            final(self).pds == old(self).pds,
            final(self).gutter == old(self).gutter,
            ops_view(final(self).out@) == ops_view(old(self).out@) + line_ops(
                old(self).gutter,
                *term,
                line as int,
            ),
    {
        let gtext: Option<String> = match &self.gutter {
            Some(f) => Some(f.render(line, term)),
            None => None,
        };
        match gtext {
            Some(s) => self.push_op(TermOp::Write(s)),
            None => (),
        }
        let content = term.buffers[line].clone();
        self.push_op(TermOp::Write(content));
        proof {
            assert(ops_view(self.out@) =~= ops_view(old(self).out@) + line_ops(
                old(self).gutter,
                *term,
                line as int,
            ));
        }
    }

    /// Write a line break: the screen cursor moves to the next line, column
    /// 0. The shadow state is not touched; a full draw updates it wholesale.
    pub fn new_line(&mut self)
        ensures
            final(self).pds == old(self).pds,
            final(self).gutter == old(self).gutter,
            ops_view(final(self).out@) == ops_view(old(self).out@).push(OpView::WriteLine(Seq::empty())),
    {
        self.push_op(TermOp::WriteLine(String::new()));
    }
}

impl<G: Gutter> Default for FullRenderer<G> {
    fn default() -> (r: Self)
        ensures
            r.pds == cleared_pds(),
            r.gutter is None,
            r.out@.len() == 0,
    {
        FullRenderer::new()
    }
}

impl<G: Gutter> Renderer for FullRenderer<G> {
    open spec fn draw_req(&self, term: TermState) -> bool {
        term.wf()
    }

    open spec fn draw_ens(&self, term: TermState, post: Self) -> bool {
        &&& post.gutter == self.gutter
        &&& post.pds == draw_post_pds(term, self.pds)
        &&& ops_view(post.out@) == ops_view(self.out@) + full_draw_ops(self.gutter, term)
    }

    open spec fn redraw_req(&self, term: TermState) -> bool {
        term.wf() && self.pds.cursor.line < self.pds.height
    }

    open spec fn redraw_ens(&self, term: TermState, post: Self) -> bool {
        &&& post.gutter == self.gutter
        &&& post.pds == draw_post_pds(term, cleared_pds())
        &&& ops_view(post.out@) == ops_view(self.out@) + clear_ops(self.pds) + full_draw_ops(
            self.gutter,
            term,
        )
    }

    open spec fn clear_req(&self, term: TermState) -> bool {
        self.pds.cursor.line < self.pds.height
    }

    open spec fn clear_ens(&self, term: TermState, post: Self) -> bool {
        &&& post.gutter == self.gutter
        &&& post.pds == cleared_pds()
        &&& ops_view(post.out@) == ops_view(self.out@) + clear_ops(self.pds)
    }

    /// Draw the prompt: every line in order, then position the cursor.
    fn draw(&mut self, term: &TermState) {
        if term.buffers.len() == 0 {
            let gtext: Option<String> = match &self.gutter {
                Some(f) => Some(f.render(0, term)),
                None => None,
            };
            match gtext {
                Some(s) => self.push_op(TermOp::Write(s)),
                None => (),
            }
            self.pds.height = 1;
            proof {
                assert(ops_view(self.out@) =~= ops_view(old(self).out@) + full_draw_ops(
                    old(self).gutter,
                    *term,
                ));
            }
            return ;
        }
        let n = term.buffers.len();
        let mut i: usize = 0;
        while i < n
            invariant
                i <= n,
                n == term.lines().len(),
                term.wf(),
                self.pds == old(self).pds,
                self.gutter == old(self).gutter,
                ops_view(self.out@) == ops_view(old(self).out@) + block_ops_upto(
                    old(self).gutter,
                    *term,
                    i as int,
                ),
            decreases n - i,
        {
            self.draw_line(term, i);
            if i < n - 1 {
                self.new_line();
            }
            proof {
                assert(ops_view(self.out@) =~= ops_view(old(self).out@) + block_ops_upto(
                    old(self).gutter,
                    *term,
                    i + 1,
                ));
            }
            i = i + 1;
        }
        self.pds.height = n;
        self.pds.cursor.line = n - 1;
        let last_len = term.buffers[n - 1].as_str().unicode_len();
        self.pds.cursor.index = last_len;
        self.draw_cursor(term);
        proof {
            assert(ops_view(self.out@) =~= ops_view(old(self).out@) + full_draw_ops(
                old(self).gutter,
                *term,
            ));
        }
    }

    /// Clear the drawn prompt: move to the bottom of the block, clear that
    /// line, clear the lines above it, and reset the shadow state.
    fn clear_draw(&mut self, term: &TermState) {
        self.move_cursor_to_bottom();
        let h = self.pds.height;
        self.push_op(TermOp::ClearLine);
        self.push_op(TermOp::ClearLastLines(h - 1));
        self.pds.height = 0;
        self.pds.cursor.line = 0;
        self.pds.cursor.index = 0;
        proof {
            assert(ops_view(self.out@) =~= ops_view(old(self).out@) + clear_ops(old(self).pds));
        }
    }

    /// Redraw the screen: clear the previous draw, then draw from scratch.
    fn redraw(&mut self, term: &TermState) {
        self.clear_draw(term);
        self.draw(term);
        proof {
            assert(ops_view(self.out@) =~= ops_view(old(self).out@) + clear_ops(old(self).pds)
                + full_draw_ops(old(self).gutter, *term));
        }
    }
}

} // verus!
