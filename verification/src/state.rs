//! The host-facing data the renderer reads: text lines, the logical cursor,
//! and the per-line gutter annotation.

use vstd::prelude::*;

verus! {

/// A logical position in the buffer: `line` indexes the ordered sequence of
/// text lines, `index` is a column offset into that line's text.
#[derive(Clone, Copy, PartialEq, Eq, Structural, Debug)]
pub struct Cursor {
    pub line: usize,
    pub index: usize,
}

impl Default for Cursor {
    fn default() -> (c: Self)
        ensures
            c.line == 0,
            c.index == 0,
    {
        Cursor { line: 0, index: 0 }
    }
}

/// The state the renderer reads from its host: the buffer contents (ordered
/// lines, mutated by the consumer between renders) and the logical cursor.
pub struct TermState {
    pub buffers: Vec<String>,
    pub cursor: Cursor,
}

impl TermState {
    /// The buffer contents as the contracts see them: a sequence of
    /// character sequences, one per line.
    pub open spec fn lines(&self) -> Seq<Seq<char>> {
        self.buffers.deep_view()
    }

    /// A readable state: the cursor's line points into the buffer, and an
    /// empty buffer pins the cursor to the origin. The cursor's column may
    /// run past its line's end (stale after a deletion); drawing clamps it.
    pub open spec fn wf(&self) -> bool {
        if self.lines().len() == 0 {
            self.cursor.line == 0 && self.cursor.index == 0
        } else {
            self.cursor.line < self.lines().len()
        }
    }

    /// An empty buffer with the cursor at the origin.
    pub fn new() -> (t: Self)
        ensures
            t.lines().len() == 0,
            t.cursor.line == 0,
            t.cursor.index == 0,
            t.wf(),
    {
        TermState { buffers: Vec::new(), cursor: Cursor { line: 0, index: 0 } }
    }

    /// The buffer contents.
    pub fn buffers(&self) -> (r: &Vec<String>)
        ensures
            r == &self.buffers,
    {
        &self.buffers
    }

    /// The logical cursor.
    pub fn cursor(&self) -> (r: &Cursor)
        ensures
            r == &self.cursor,
    {
        &self.cursor
    }

    /// The length, in characters, of the line the cursor is on.
    pub fn current_line_len(&self) -> (n: usize)
        requires
            self.cursor.line < self.lines().len(),
        ensures
            n == self.lines()[self.cursor.line as int].len(),
    {
        self.buffers[self.cursor.line].as_str().unicode_len()
    }
}

/// A per-line annotation: a pure function from a line index and a read-only
/// view of the host state to the text drawn before that line's content. It
/// carries no state across calls and never touches the terminal itself.
pub trait Gutter: Sized {
    /// The text the gutter produces, as the contracts see it.
    spec fn spec_render(&self, line: int, t: TermState) -> Seq<char>;

    /// Render the gutter text for `line`.
    fn render(&self, line: usize, t: &TermState) -> (r: String)
        ensures
            r@ == self.spec_render(line as int, *t),
    ;
}

/// A gutter that draws the same prefix before every line.
pub struct PrefixGutter {
    pub prefix: String,
}

impl Gutter for PrefixGutter {
    open spec fn spec_render(&self, line: int, t: TermState) -> Seq<char> {
        self.prefix@
    }

    fn render(&self, line: usize, t: &TermState) -> (r: String) {
        self.prefix.clone()
    }
}

} // verus!
