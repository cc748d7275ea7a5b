//! The helper routine: one line per element scaled by a million, then a halt.

use vstd::prelude::*;
use crate::scale::{checked_scale, overflows, scaled};
use crate::text::{labelled, labelled_line};
use crate::trace::{line_texts, starts_with, Halt, Trace, TraceView};

verus! {

/// The label that opens every line of the helper.
pub open spec fn result_label() -> Seq<char> {
    "Result: "@
}

/// The line that the helper writes for the element `value`.
pub open spec fn result_line(value: int) -> Seq<char> {
    labelled(result_label(), scaled(value))
}

/// The line that stands behind the helper's abort.
pub open spec fn closing_line() -> Seq<char> {
    "This will never execute"@
}

/// The number of leading elements of `data` that scale within range.
pub open spec fn clean_prefix(data: Seq<i32>) -> nat
    decreases data.len(),
{
    if data.len() == 0 || overflows(data[0] as int) {
        0
    } else {
        1 + clean_prefix(data.drop_first())
    }
}

/// The trace of the helper on `data`: the result line of each element of the
/// clean prefix, in order; then the overflow of the first element past it, or,
/// where every element scaled, the helper's own abort.
pub open spec fn helper_trace(data: Seq<i32>) -> TraceView {
    let stop = clean_prefix(data);
    TraceView {
        lines: Seq::new(stop, |i: int| result_line(data[i] as int)),
        halt: if stop < data.len() {
            Halt::Overflow { position: stop as usize, value: data[stop as int] }
        } else {
            Halt::HelperAbort
        },
    }
}

/// The clean prefix ends at `stop` where no element before `stop` overflows
/// and the element at `stop`, if there is one, does.
pub proof fn lemma_clean_prefix_ends(data: Seq<i32>, stop: int)
    requires
        0 <= stop <= data.len(),
        forall|i: int| 0 <= i < stop ==> !overflows(#[trigger] data[i] as int),
        stop < data.len() ==> overflows(data[stop] as int),
    ensures
        clean_prefix(data) == stop,
    decreases stop,
{
    if stop > 0 {
        let rest = data.drop_first();
        assert forall|i: int| 0 <= i < stop - 1 implies !overflows(#[trigger] rest[i] as int) by {
            assert(rest[i] == data[i + 1]);
        }
        lemma_clean_prefix_ends(rest, stop - 1);
    }
}

/// The clean prefix never exceeds the sequence, holds no overflowing element,
/// and is followed by one unless it is the whole sequence.
pub proof fn lemma_clean_prefix_is_clean(data: Seq<i32>)
    ensures
        clean_prefix(data) <= data.len(),
        forall|i: int| 0 <= i < clean_prefix(data) ==> !overflows(#[trigger] data[i] as int),
        clean_prefix(data) < data.len() ==> overflows(data[clean_prefix(data) as int] as int),
    decreases data.len(),
{
    if data.len() > 0 && !overflows(data[0] as int) {
        let rest = data.drop_first();
        lemma_clean_prefix_is_clean(rest);
        assert forall|i: int| 0 <= i < clean_prefix(data) implies !overflows(
            #[trigger] data[i] as int,
        ) by {
            if i > 0 {
                assert(data[i] == rest[i - 1]);
            }
        }
        if clean_prefix(rest) < rest.len() {
            assert(rest[clean_prefix(rest) as int] == data[clean_prefix(data) as int]);
        }
    }
}

/// The closing line is dead: whatever the input, the helper writes nothing but
/// result lines, at most one per element, and the closing line is not among
/// them.
pub proof fn lemma_closing_line_never_written(data: Seq<i32>)
    ensures
        helper_trace(data).lines.len() <= data.len(),
        forall|i: int|
            0 <= i < helper_trace(data).lines.len() ==> starts_with(
                #[trigger] helper_trace(data).lines[i],
                result_label(),
            ),
        !helper_trace(data).lines.contains(closing_line()),
{
    reveal_strlit("Result: ");
    reveal_strlit("This will never execute");
    lemma_clean_prefix_is_clean(data);
    let lines = helper_trace(data).lines;
    assert forall|i: int| 0 <= i < lines.len() implies starts_with(
        #[trigger] lines[i],
        result_label(),
    ) by {
        assert(lines[i].subrange(0, result_label().len() as int) =~= result_label());
    }
    assert forall|i: int| 0 <= i < lines.len() implies lines[i] != closing_line() by {
        assert(starts_with(lines[i], result_label()));
        assert(lines[i].subrange(0, result_label().len() as int)[0] == 'R');
        assert(closing_line()[0] == 'T');
    }
}

/// Scales each element of `data` by a million and writes its line, stopping at
/// the first product that leaves the 32-bit signed range; halts in either case.
pub fn process_data(data: Vec<i32>) -> (trace: Trace)
    ensures
        trace@ == helper_trace(data@),
{
    let mut lines: Vec<String> = Vec::new();
    let mut i: usize = 0;
    while i < data.len()
        invariant
            i <= data.len(),
            lines@.len() == i,
            forall|j: int| 0 <= j < i ==> !overflows(#[trigger] data@[j] as int),
            forall|j: int| 0 <= j < i ==> (#[trigger] lines@[j])@ == result_line(data@[j] as int),
        decreases data.len() - i,
    {
        let value = data[i];
        match checked_scale(value) {
            None => {
                proof {
                    lemma_clean_prefix_ends(data@, i as int);
                    assert(line_texts(lines@) =~= helper_trace(data@).lines);
                }
                return Trace { lines, halt: Halt::Overflow { position: i, value } };
            },
            Some(product) => {
                lines.push(labelled_line("Result: ", product));
            },
        }
        i += 1;
    }
    proof {
        lemma_clean_prefix_ends(data@, i as int);
        assert(line_texts(lines@) =~= helper_trace(data@).lines);
    }
    Trace { lines, halt: Halt::HelperAbort }
}

} // verus!
