use vstd::prelude::*;

verus! {

/// Failures an aggregator operation reports to its caller.
///
/// All of these are recoverable, typed results: the aggregator subsystem
/// never turns one of them into a process-terminating failure, and it never
/// retries on its own.
#[derive(Clone, Copy, Debug, PartialEq, Eq, Structural)]
pub enum AggregatorError {
    /// Creation was invoked with an `AggregatorID` that is already present.
    DuplicateIdentity,
    /// A materialized or resolved value would exceed the aggregator's limit.
    Overflow,
    /// A materialized or resolved value would go below zero.
    Underflow,
    /// An operation referenced an `AggregatorID` the table has never seen.
    UnknownAggregator,
}

} // verus!
