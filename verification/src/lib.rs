//! Commutative, bound-checked counters for speculatively parallel
//! transaction execution: each execution context owns a table of
//! aggregators that accumulate signed deltas without knowing the counter's
//! durable base value, and only a read or a commit reconciles the delta
//! against that base, with overflow and underflow classified exactly.
//! Counter identities are derived deterministically from the creating
//! transaction's digest and its creation order, so replayed executions
//! agree on them.

pub mod accept;
pub mod aggregator;
pub mod context;
pub mod errors;
pub mod identity;
pub mod laws;
pub mod natives;
pub mod resolver;
pub mod table;
