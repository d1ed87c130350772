use vstd::prelude::*;

verus! {

/// The kinds of failure an operation reports to its caller.
#[derive(Debug, Clone, Copy, PartialEq, Eq, Structural)]
pub enum CoreError {
    /// A non-positive rate, a rate too small to release a byte per window,
    /// or an intensity outside `[0, 1]`.
    Configuration,
    /// Reading the underlying byte source failed.
    Source,
    /// Writing to the destination (socket or file) failed.
    Sink,
    /// A worker died before it signalled completion.
    ExecutionAborted,
}

} // verus!
