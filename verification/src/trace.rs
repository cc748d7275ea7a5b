//! What a routine leaves behind: the lines it wrote and the way it halted.

use vstd::prelude::*;

verus! {

/// The way a routine halts. Every variant is an abnormal end: no routine of
/// this library runs to a normal return.
#[derive(Clone, Copy, Debug, PartialEq, Eq, Structural)]
pub enum Halt {
    /// A position at or past the end of a sequence of `len` elements was read.
    OutOfRange { index: usize, len: usize },
    /// The entry routine's unconditional abort, after its one line.
    EntryAbort,
    /// The product of `value`, the element at `position`, left the 32-bit
    /// signed range.
    Overflow { position: usize, value: i32 },
    /// The helper's unconditional abort, after the line of the last element.
    HelperAbort,
}

/// The lines a routine wrote, in order, and the halt that ended it.
#[derive(Clone, Debug, PartialEq, Eq)]
pub struct Trace {
    pub lines: Vec<String>,
    pub halt: Halt,
}

/// A trace as mathematics: each line as a sequence of characters.
pub struct TraceView {
    pub lines: Seq<Seq<char>>,
    pub halt: Halt,
}

impl View for Trace {
    type V = TraceView;

    open spec fn view(&self) -> TraceView {
        TraceView { lines: line_texts(self.lines@), halt: self.halt }
    }
}

/// The text of each line of `lines`, in the same order.
pub open spec fn line_texts(lines: Seq<String>) -> Seq<Seq<char>> {
    Seq::new(lines.len(), |i: int| lines[i]@)
}

/// Whether `line` begins with `prefix`.
pub open spec fn starts_with(line: Seq<char>, prefix: Seq<char>) -> bool {
    prefix.len() <= line.len() && line.subrange(0, prefix.len() as int) == prefix
}

} // verus!
