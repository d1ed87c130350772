use vstd::prelude::*;

use crate::error::CoreError;

verus! {

/// Where a CPU burn runs relative to the cooperative scheduler.
#[derive(Debug, Clone, Copy, PartialEq, Eq, Structural)]
pub enum ExecutionStrategy {
    /// On the caller's own worker, which it blocks for the whole burn.
    Inline,
    /// On the bounded pool reserved for blocking work; the caller suspends.
    PoolOffload,
    /// On a new OS thread signalling back through a one-shot channel; the
    /// caller suspends.
    DedicatedThread,
}

impl ExecutionStrategy {
    /// Whether the caller's worker is held for the whole burn.
    pub fn blocks_caller(&self) -> (r: bool)
        ensures
            r == (*self == ExecutionStrategy::Inline),
    {
        match self {
            ExecutionStrategy::Inline => true,
            _ => false,
        }
    }

    /// The outcome seen by the waiting caller: the worker's counter when it
    /// signalled completion, and an aborted execution when it died first.
    pub fn conclude(&self, signal: Option<u64>) -> (r: Result<u64, CoreError>)
        ensures
            signal matches Some(c) ==> r == Ok::<u64, CoreError>(c),
            signal is None ==> r == Err::<u64, CoreError>(CoreError::ExecutionAborted),
    {
        match signal {
            Some(c) => Ok(c),
            None => Err(CoreError::ExecutionAborted),
        }
    }
}

} // verus!
