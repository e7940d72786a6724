//! Terminal operations: the commands the renderer issues to the terminal
//! primitive layer, and their mathematical views.

use vstd::prelude::*;

verus! {

/// One operation for the terminal primitive layer. The renderer only ever
/// emits these; the host executes them, in order, against a real terminal.
#[derive(PartialEq, Eq, Debug)]
pub enum TermOp {
    /// Write raw text at the cursor, no implicit line break.
    Write(String),
    /// Write text followed by a line break; the cursor moves to the next
    /// line, column 0.
    WriteLine(String),
    /// Erase the contents of the line the cursor is on; the cursor moves to
    /// the start of that line.
    ClearLine,
    /// Erase the given number of lines immediately above the cursor's line.
    ClearLastLines(usize),
    /// Relative cursor motion by the given number of rows or columns.
    MoveUp(usize),
    MoveDown(usize),
    MoveLeft(usize),
    MoveRight(usize),
}

/// The mathematical shape of a terminal operation.
pub enum OpView {
    Write(Seq<char>),
    WriteLine(Seq<char>),
    ClearLine,
    ClearLastLines(nat),
    MoveUp(nat),
    MoveDown(nat),
    MoveLeft(nat),
    MoveRight(nat),
}

impl View for TermOp {
    type V = OpView;

    open spec fn view(&self) -> OpView {
        match self {
            TermOp::Write(s) => OpView::Write(s@),
            TermOp::WriteLine(s) => OpView::WriteLine(s@),
            TermOp::ClearLine => OpView::ClearLine,
            TermOp::ClearLastLines(n) => OpView::ClearLastLines(*n as nat),
            TermOp::MoveUp(n) => OpView::MoveUp(*n as nat),
            TermOp::MoveDown(n) => OpView::MoveDown(*n as nat),
            TermOp::MoveLeft(n) => OpView::MoveLeft(*n as nat),
            TermOp::MoveRight(n) => OpView::MoveRight(*n as nat),
        }
    }
}

/// The views of a sequence of operations.
pub open spec fn ops_view(s: Seq<TermOp>) -> Seq<OpView> {
    s.map_values(|op: TermOp| op@)
}

pub proof fn lemma_ops_view_push(s: Seq<TermOp>, op: TermOp)
    ensures
        ops_view(s.push(op)) == ops_view(s).push(op@),
{
    assert(ops_view(s.push(op)) =~= ops_view(s).push(op@));
}

/// The operations an upward move of `n` rows issues: none when `n` is zero,
/// otherwise a single primitive call.
pub open spec fn up_ops(n: nat) -> Seq<OpView> {
    if n == 0 {
        Seq::empty()
    } else {
        seq![OpView::MoveUp(n)]
    }
}

/// The operations a downward move of `n` rows issues.
pub open spec fn down_ops(n: nat) -> Seq<OpView> {
    if n == 0 {
        Seq::empty()
    } else {
        seq![OpView::MoveDown(n)]
    }
}

/// The operations a leftward move of `n` columns issues.
pub open spec fn left_ops(n: nat) -> Seq<OpView> {
    if n == 0 {
        Seq::empty()
    } else {
        seq![OpView::MoveLeft(n)]
    }
}

/// The operations a rightward move of `n` columns issues.
pub open spec fn right_ops(n: nat) -> Seq<OpView> {
    if n == 0 {
        Seq::empty()
    } else {
        seq![OpView::MoveRight(n)]
    }
}

/// The operations that take the cursor from row `from` to row `to`: one
/// up or down move of the absolute difference, or nothing if equal.
pub open spec fn vertical_ops(from: nat, to: nat) -> Seq<OpView> {
    if from > to {
        up_ops((from - to) as nat)
    } else {
        down_ops((to - from) as nat)
    }
}

/// The operations that take the cursor from column `from` to column `to`.
pub open spec fn horizontal_ops(from: nat, to: nat) -> Seq<OpView> {
    if from > to {
        left_ops((from - to) as nat)
    } else {
        right_ops((to - from) as nat)
    }
}

} // verus!
