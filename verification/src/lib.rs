//! A fail-fast program in two routines, as a library of traces.
//!
//! The entry routine reads one position of a sequence of 32-bit integers and
//! halts; the helper scales every element by a million, writes one line per
//! product and halts. Neither routine writes to a stream or aborts here: each
//! returns a [`trace::Trace`], the lines it would write, in order, and the way
//! it halts. A caller that owns the streams writes the lines and then stops as
//! the halt says.
//!
//! Every routine carries a contract that fixes its trace, and the laws that
//! hold of all traces are proof functions next to the routine they speak of.

pub mod entry;
pub mod helper;
pub mod scale;
pub mod text;
pub mod trace;
