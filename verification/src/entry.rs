//! The entry routine: one read of a sequence, one line if the read succeeds,
//! and a halt either way.

use vstd::prelude::*;
use crate::helper::result_label;
use crate::text::{labelled, labelled_line};
use crate::trace::{line_texts, starts_with, Halt, Trace, TraceView};

verus! {

/// The position that the entry routine reads.
pub const PROBE: usize = 10;

/// The sequence that the entry routine builds.
pub open spec fn sample() -> Seq<i32> {
    seq![1i32, 2i32, 3i32]
}

/// The label that opens the line of the entry routine.
pub open spec fn value_label() -> Seq<char> {
    "Value: "@
}

/// The line that the entry routine writes for the element `value`.
pub open spec fn value_line(value: int) -> Seq<char> {
    labelled(value_label(), value)
}

/// The trace of the entry routine on `data` and `index`. A read past the end
/// halts before anything is written. A read within the sequence writes the
/// element's line and then meets the unconditional abort.
pub open spec fn entry_trace(data: Seq<i32>, index: usize) -> TraceView {
    if index < data.len() {
        TraceView { lines: seq![value_line(data[index as int] as int)], halt: Halt::EntryAbort }
    } else {
        TraceView {
            lines: Seq::empty(),
            halt: Halt::OutOfRange { index, len: data.len() as usize },
        }
    }
}

/// The hand-over to the helper is dead: whatever the input, the entry routine
/// halts on its own read or on its own abort, having written at most one line,
/// and that line is no result line.
pub proof fn lemma_helper_never_reached(data: Seq<i32>, index: usize)
    ensures
        entry_trace(data, index).halt is OutOfRange || entry_trace(data, index).halt is EntryAbort,
        entry_trace(data, index).lines.len() <= 1,
        forall|i: int|
            0 <= i < entry_trace(data, index).lines.len() ==> !starts_with(
                #[trigger] entry_trace(data, index).lines[i],
                result_label(),
            ),
{
    reveal_strlit("Value: ");
    reveal_strlit("Result: ");
    if index < data.len() {
        let line = value_line(data[index as int] as int);
        assert(line[0] == 'V');
        assert(result_label()[0] == 'R');
        if starts_with(line, result_label()) {
            assert(line.subrange(0, result_label().len() as int)[0] == line[0]);
        }
    }
}

/// The three-element sequence of the entry routine.
pub fn sample_data() -> (data: Vec<i32>)
    ensures
        data@ == sample(),
{
    let mut data: Vec<i32> = Vec::new();
    data.push(1);
    data.push(2);
    data.push(3);
    assert(data@ =~= sample());
    data
}

/// Reads the element of `data` at `index`, writes its line, and halts.
pub fn run_on(data: Vec<i32>, index: usize) -> (trace: Trace)
    ensures
        trace@ == entry_trace(data@, index),
{
    let mut lines: Vec<String> = Vec::new();
    if index >= data.len() {
        assert(line_texts(lines@) =~= Seq::<Seq<char>>::empty());
        return Trace { lines, halt: Halt::OutOfRange { index, len: data.len() } };
    }
    lines.push(labelled_line("Value: ", data[index]));
    assert(line_texts(lines@) =~= seq![value_line(data@[index as int] as int)]);
    Trace { lines, halt: Halt::EntryAbort }
}

/// The entry routine on its own input: position 10 of a sequence of three is
/// out of range, so it halts at once and writes nothing.
pub fn run() -> (trace: Trace)
    ensures
        trace@ == entry_trace(sample(), PROBE),
        trace@.lines.len() == 0,
        trace@.halt == (Halt::OutOfRange { index: 10, len: 3 }),
{
    run_on(sample_data(), PROBE)
}

} // verus!
