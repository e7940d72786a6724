//! The incremental renderer: wraps the full renderer, keeps a snapshot of
//! the buffer as last rendered, classifies the change since then, and
//! performs the minimal redraw that classification implies.

use vstd::prelude::*;

use crate::ops::horizontal_ops;
use crate::ops::ops_view;
use crate::ops::vertical_ops;
use crate::ops::OpView;
use crate::ops::TermOp;
use crate::renderer::clamped_index;
use crate::renderer::clear_ops;
use crate::renderer::full_draw_ops;
use crate::renderer::line_ops;
use crate::renderer::FullRenderer;
use crate::renderer::PreviousDrawState;
use crate::renderer::Renderer;
use crate::renderer::draw_post_pds;
use crate::state::Cursor;
use crate::state::Gutter;
use crate::state::TermState;
use vstd::pervasive::VecAdditionalExecFns;

verus! {

/// How a redraw reconciles the screen with the buffer: nothing to do, move
/// the cursor only, repaint one line, or repaint everything.
#[derive(Clone, Copy, PartialEq, Eq, Structural, Debug)]
pub enum Diff {
    NoChange,
    RedrawCursor,
    RedrawLine(usize),
    RedrawAll,
}

/// How many of the first `i` lines differ between the two buffers.
pub open spec fn changed_upto(old_l: Seq<Seq<char>>, new_l: Seq<Seq<char>>, i: int) -> int
    decreases i,
{
    if i <= 0 {
        0
    } else {
        changed_upto(old_l, new_l, i - 1) + (if old_l[i - 1] == new_l[i - 1] {
            0int
        } else {
            1int
        })
    }
}

/// The index of the last line among the first `i` that differs; 0 if none.
pub open spec fn last_changed_upto(old_l: Seq<Seq<char>>, new_l: Seq<Seq<char>>, i: int) -> int
    decreases i,
{
    if i <= 0 {
        0
    } else if old_l[i - 1] != new_l[i - 1] {
        i - 1
    } else {
        last_changed_upto(old_l, new_l, i - 1)
    }
}

pub proof fn lemma_changed_upto_props(old_l: Seq<Seq<char>>, new_l: Seq<Seq<char>>, i: int)
    requires
        i >= 0,
    ensures
        0 <= changed_upto(old_l, new_l, i) <= i,
        changed_upto(old_l, new_l, i) == 0 ==> (forall|j: int|
            0 <= j < i ==> old_l[j] == new_l[j]),
        changed_upto(old_l, new_l, i) == 1 ==> ({
            let k = last_changed_upto(old_l, new_l, i);
            &&& 0 <= k < i
            &&& old_l[k] != new_l[k]
            &&& forall|j: int| 0 <= j < i && j != k ==> old_l[j] == new_l[j]
        }),
    decreases i,
{
    if i > 0 {
        lemma_changed_upto_props(old_l, new_l, i - 1);
    }
}

/// Lines that agree everywhere show no change.
pub proof fn lemma_changed_upto_zero(old_l: Seq<Seq<char>>, new_l: Seq<Seq<char>>, i: int)
    requires
        i >= 0,
        forall|j: int| 0 <= j < i ==> old_l[j] == new_l[j],
    ensures
        changed_upto(old_l, new_l, i) == 0,
    decreases i,
{
    if i > 0 {
        lemma_changed_upto_zero(old_l, new_l, i - 1);
    }
}

/// The diff classification: a pure function of the previous snapshot, the
/// current lines, the shadow cursor and the logical cursor. Differing line
/// counts, or two or more differing lines, force a full redraw.
pub open spec fn spec_diff(
    old_l: Seq<Seq<char>>,
    new_l: Seq<Seq<char>>,
    shadow: Cursor,
    cur: Cursor,
) -> Diff {
    if old_l.len() != new_l.len() {
        Diff::RedrawAll
    } else {
        let changes = changed_upto(old_l, new_l, old_l.len() as int);
        if changes == 0 && shadow != cur {
            Diff::RedrawCursor
        } else if changes == 0 {
            Diff::NoChange
        } else if changes == 1 {
            Diff::RedrawLine(last_changed_upto(old_l, new_l, old_l.len() as int) as usize)
        } else {
            Diff::RedrawAll
        }
    }
}

/// The operations a single-line redraw issues: move to the line, clear it,
/// redraw its gutter and text, then reposition the cursor.
pub open spec fn redraw_line_ops<G: Gutter>(
    g: Option<G>,
    t: TermState,
    shadow: Cursor,
    line: int,
) -> Seq<OpView> {
    vertical_ops(shadow.line as nat, line as nat) + seq![OpView::ClearLine] + line_ops(g, t, line)
        + vertical_ops(line as nat, t.cursor.line as nat) + horizontal_ops(
        t.lines()[line].len(),
        clamped_index(t) as nat,
    )
}

/// The operations an incremental redraw issues, per classification.
pub open spec fn spec_redraw_ops<G: Gutter>(
    g: Option<G>,
    old_l: Seq<Seq<char>>,
    pds: PreviousDrawState,
    t: TermState,
) -> Seq<OpView> {
    match spec_diff(old_l, t.lines(), pds.cursor, t.cursor) {
        Diff::NoChange => Seq::empty(),
        Diff::RedrawCursor => vertical_ops(pds.cursor.line as nat, t.cursor.line as nat)
            + horizontal_ops(pds.cursor.index as nat, clamped_index(t) as nat),
        Diff::RedrawLine(k) => redraw_line_ops(g, t, pds.cursor, k as int),
        Diff::RedrawAll => clear_ops(pds) + full_draw_ops(g, t),
    }
}

/// The incremental renderer: a full renderer plus the snapshot of the buffer
/// exactly as it was after the last render, kept purely for diffing.
pub struct LazyRenderer<G: Gutter> {
    /// The full renderer it wraps, used whenever a cheaper path does not
    /// apply; also the owner of the shadow state and the operation queue.
    pub inner: FullRenderer<G>,
    /// The buffer as last rendered: a stale-but-previously-true copy,
    /// replaced piecewise or wholesale after each redraw.
    pub pbuf: Vec<String>,
}

impl<G: Gutter> LazyRenderer<G> {
    /// The snapshot as the contracts see it.
    pub open spec fn snapshot(&self) -> Seq<Seq<char>> {
        self.pbuf.deep_view()
    }

    /// Holds after a successful draw or redraw: the shadow state covers the
    /// drawn block, whose height is the snapshot's length (1 for an empty
    /// buffer, whose draw still occupies one line).
    pub open spec fn drawn(&self) -> bool {
        &&& self.inner.pds.cursor.line < self.inner.pds.height
        &&& (if self.snapshot().len() == 0 {
            self.inner.pds.height == 1
        } else {
            self.inner.pds.height == self.snapshot().len()
        })
    }

    /// Wrap a full renderer; nothing rendered yet.
    pub fn wrap(renderer: FullRenderer<G>) -> (r: Self)
        ensures
            r.inner == renderer,
            r.snapshot().len() == 0,
    {
        LazyRenderer { inner: renderer, pbuf: Vec::new() }
    }

    /// Hand the queued operations to the host and leave the queue empty.
    pub fn take_ops(&mut self) -> (r: Vec<TermOp>)
        ensures
            r == old(self).inner.out,
            final(self).inner.out@.len() == 0,
            final(self).inner.pds == old(self).inner.pds,
            final(self).inner.gutter == old(self).inner.gutter,
            final(self).pbuf == old(self).pbuf,
    {
        self.inner.take_ops()
    }

    /// Copy the buffer into a fresh snapshot.
    fn clone_lines(buffers: &Vec<String>) -> (r: Vec<String>)
        ensures
            r.deep_view() == buffers.deep_view(),
    {
        let mut r: Vec<String> = Vec::new();
        let mut i: usize = 0;
        while i < buffers.len()
            invariant
                i <= buffers.len(),
                r@.len() == i,
                forall|j: int| 0 <= j < i ==> r@[j]@ == buffers@[j]@,
            decreases buffers.len() - i,
        {
            r.push(buffers[i].clone());
            i = i + 1;
        }
        proof {
            assert(r.deep_view() =~= buffers.deep_view());
        }
        r
    }

    /// Classify the change between the snapshot and the current buffer: a
    /// pure function of the old lines, the new lines, the shadow cursor and
    /// the logical cursor.
    pub fn find_diff(&self, term: &TermState) -> (d: Diff)
        ensures
            d == spec_diff(self.snapshot(), term.lines(), self.inner.pds.cursor, term.cursor),
    {
        let old_len = self.pbuf.len();
        if old_len != term.buffers.len() {
            return Diff::RedrawAll;
        }
        let mut changes: usize = 0;
        let mut line: usize = 0;
        let mut i: usize = 0;
        while i < old_len
            invariant
                i <= old_len,
                old_len == self.snapshot().len(),
                old_len == term.lines().len(),
                changes as int == changed_upto(self.snapshot(), term.lines(), i as int),
                changes as int <= i as int,
                changes > 0 ==> line as int == last_changed_upto(
                    self.snapshot(),
                    term.lines(),
                    i as int,
                ),
                changes == 0 ==> line == 0,
            decreases old_len - i,
        {
            if !(self.pbuf[i] == term.buffers[i]) {
                changes = changes + 1;
                line = i;
            }
            i = i + 1;
        }
        if changes == 0 {
            let shadow = self.inner.pds.cursor;
            if shadow != term.cursor {
                Diff::RedrawCursor
            } else {
                Diff::NoChange
            }
        } else if changes == 1 {
            Diff::RedrawLine(line)
        } else {
            Diff::RedrawAll
        }
    }

    /// Repaint one line in place: move to it, clear it, draw its gutter and
    /// text, record its new length in the shadow state and the snapshot,
    /// then reposition the cursor at the logical cursor.
    pub fn redraw_line(&mut self, term: &TermState, line: usize)
        requires
            term.wf(),
            term.lines().len() > 0,
            line < term.lines().len(),
            old(self).snapshot().len() == term.lines().len(),
        ensures
            final(self).inner.gutter == old(self).inner.gutter,
            final(self).inner.pds.height == old(self).inner.pds.height,
            final(self).inner.pds.cursor.line == term.cursor.line,
            final(self).inner.pds.cursor.index as int == clamped_index(*term),
            final(self).snapshot() == old(self).snapshot().update(
                line as int,
                term.lines()[line as int],
            ),
            ops_view(final(self).inner.out@) == ops_view(old(self).inner.out@) + redraw_line_ops(
                old(self).inner.gutter,
                *term,
                old(self).inner.pds.cursor,
                line as int,
            ),
    {
        self.inner.move_cursor_to_line(line);
        self.inner.push_op(TermOp::ClearLine);
        self.inner.draw_line(term, line);
        let buf = term.buffers[line].clone();
        let blen = buf.as_str().unicode_len();
        self.inner.pds.cursor.index = blen;
        self.pbuf.set(line, buf);
        self.inner.draw_cursor(term);
        proof {
            assert(self.snapshot() =~= old(self).snapshot().update(
                line as int,
                term.lines()[line as int],
            ));
            assert(ops_view(self.inner.out@) =~= ops_view(old(self).inner.out@)
                + redraw_line_ops(
                old(self).inner.gutter,
                *term,
                old(self).inner.pds.cursor,
                line as int,
            ));
        }
    }
}

impl<G: Gutter> Default for LazyRenderer<G> {
    fn default() -> (r: Self)
        ensures
            r.inner.pds == crate::renderer::cleared_pds(),
            r.inner.gutter is None,
            r.inner.out@.len() == 0,
            r.snapshot().len() == 0,
    {
        LazyRenderer::wrap(FullRenderer::new())
    }
}

impl<G: Gutter> Renderer for LazyRenderer<G> {
    open spec fn draw_req(&self, term: TermState) -> bool {
        term.wf()
    }

    open spec fn draw_ens(&self, term: TermState, post: Self) -> bool {
        &&& post.inner.gutter == self.inner.gutter
        &&& post.inner.pds == draw_post_pds(term, self.inner.pds)
        &&& ops_view(post.inner.out@) == ops_view(self.inner.out@) + full_draw_ops(
            self.inner.gutter,
            term,
        )
        &&& post.snapshot() == term.lines()
    }

    open spec fn redraw_req(&self, term: TermState) -> bool {
        &&& term.wf()
        &&& self.drawn()
        &&& term.lines().len() > 0 || self.inner.pds.cursor == term.cursor
    }

    open spec fn redraw_ens(&self, term: TermState, post: Self) -> bool {
        &&& post.inner.gutter == self.inner.gutter
        &&& ops_view(post.inner.out@) == ops_view(self.inner.out@) + spec_redraw_ops(
            self.inner.gutter,
            self.snapshot(),
            self.inner.pds,
            term,
        )
        &&& post.snapshot() == term.lines()
        &&& post.drawn()
        &&& post.inner.pds.cursor == term.cursor || (term.lines().len() > 0
            && post.inner.pds.cursor.line == term.cursor.line
            && post.inner.pds.cursor.index as int == clamped_index(term))
    }

    open spec fn clear_req(&self, term: TermState) -> bool {
        self.inner.pds.cursor.line < self.inner.pds.height
    }

    open spec fn clear_ens(&self, term: TermState, post: Self) -> bool {
        &&& post.inner.gutter == self.inner.gutter
        &&& post.inner.pds == crate::renderer::cleared_pds()
        &&& ops_view(post.inner.out@) == ops_view(self.inner.out@) + clear_ops(self.inner.pds)
        &&& post.snapshot().len() == 0
    }

    /// Draw the whole prompt and snapshot the buffer it rendered.
    fn draw(&mut self, term: &TermState) {
        self.inner.draw(term);
        self.pbuf = Self::clone_lines(&term.buffers);
    }

    /// Redraw the minimal region the change since the last render implies:
    /// nothing, the cursor, one line, or the whole prompt.
    fn redraw(&mut self, term: &TermState) {
        let d = self.find_diff(term);
        proof {
            lemma_changed_upto_props(
                self.snapshot(),
                term.lines(),
                self.snapshot().len() as int,
            );
        }
        match d {
            Diff::NoChange => {
                proof {
                    assert(self.snapshot() =~= term.lines());
                    assert(ops_view(self.inner.out@) =~= ops_view(self.inner.out@)
                        + Seq::<OpView>::empty());
                    assert(spec_redraw_ops(
                        old(self).inner.gutter,
                        old(self).snapshot(),
                        old(self).inner.pds,
                        *term,
                    ) == Seq::<OpView>::empty());
                }
            },
            Diff::RedrawCursor => {
                self.inner.draw_cursor(term);
                proof {
                    assert(self.snapshot() =~= term.lines());
                    assert(ops_view(self.inner.out@) =~= ops_view(old(self).inner.out@)
                        + spec_redraw_ops(
                        old(self).inner.gutter,
                        old(self).snapshot(),
                        old(self).inner.pds,
                        *term,
                    ));
                }
            },
            Diff::RedrawLine(line) => {
                self.redraw_line(term, line);
                proof {
                    assert(self.snapshot() =~= term.lines());
                }
            },
            Diff::RedrawAll => {
                let n_lines = term.buffers.len();
                self.clear_draw(term);
                self.draw(term);
                proof {
                    assert(ops_view(self.inner.out@) =~= ops_view(old(self).inner.out@)
                        + spec_redraw_ops(
                        old(self).inner.gutter,
                        old(self).snapshot(),
                        old(self).inner.pds,
                        *term,
                    ));
                    assert(n_lines == term.lines().len());
                }
            },
        }
    }

    /// Forget the snapshot and clear the drawn prompt.
    fn clear_draw(&mut self, term: &TermState) {
        self.pbuf.clear();
        self.inner.clear_draw(term);
    }
}

} // verus!
