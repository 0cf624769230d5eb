use vstd::prelude::*;

use crate::errors::AggregatorError;
use crate::resolver::resolve;
use crate::resolver::resolve_spec;

verus! {

/// Identifies one logical counter: the `handle` of the owning collection and
/// a `key` unique within that handle. Assigned exactly once, at creation, and
/// immutable thereafter.
#[derive(Clone, Copy, Debug, PartialEq, Eq, Structural)]
pub struct AggregatorID {
    pub handle: u128,
    pub key: u128,
}

impl AggregatorID {
    pub fn new(handle: u128, key: u128) -> (id: AggregatorID)
        ensures
            id == (AggregatorID { handle, key }),
    {
        AggregatorID { handle, key }
    }
}

/// The two shapes an aggregator's state can take. Keeping them as a sum type
/// makes "materialized but still carrying a pending offset" unrepresentable.
#[derive(Clone, Copy, Debug, PartialEq, Eq, Structural)]
pub enum AggregatorState {
    /// An unresolved signed offset, accumulated against an unknown base value.
    /// No bound check happens in this shape: the base is not known yet.
    Delta { offset: i128 },
    /// A concrete value, already checked to lie in `[0, limit]`.
    Materialized { value: u128 },
}

/// A single mutable logical counter: an upper bound and either a pending
/// signed delta or a materialized value.
#[derive(Clone, Copy, Debug, PartialEq, Eq, Structural)]
pub struct Aggregator {
    pub id: AggregatorID,
    pub limit: u128,
    pub state: AggregatorState,
}

/// External collaborator that supplies the last known durable value for an
/// aggregator. Implemented outside this crate; nothing is assumed of an
/// implementation, so everything proved here holds whatever it answers.
pub trait BaseResolver {
    /// The durable base value for `id`, or `None` when durable state knows
    /// no such counter.
    fn resolve_base(&mut self, id: &AggregatorID) -> Option<u128>;
}

/// What merging `+delta` into an aggregator yields: the new aggregator and
/// the operation's outcome. In `Delta` shape the offset accumulates with no
/// bound check (the base is unknown); in `Materialized` shape the new value
/// is checked against the limit at once.
pub open spec fn add_spec(a: Aggregator, delta: u128) -> (Aggregator, Result<
    (),
    AggregatorError,
>) {
    match a.state {
        AggregatorState::Delta { offset } => {
            if offset + delta <= i128::MAX {
                (
                    Aggregator {
                        state: AggregatorState::Delta { offset: (offset + delta) as i128 },
                        ..a
                    },
                    Ok(()),
                )
            } else {
                (a, Err(AggregatorError::Overflow))
            }
        },
        AggregatorState::Materialized { value } => {
            if value + delta <= a.limit {
                (
                    Aggregator {
                        state: AggregatorState::Materialized { value: (value + delta) as u128 },
                        ..a
                    },
                    Ok(()),
                )
            } else {
                (a, Err(AggregatorError::Overflow))
            }
        },
    }
}

/// What merging `-delta` into an aggregator yields, symmetric to `add_spec`.
pub open spec fn sub_spec(a: Aggregator, delta: u128) -> (Aggregator, Result<
    (),
    AggregatorError,
>) {
    match a.state {
        AggregatorState::Delta { offset } => {
            if offset - delta >= i128::MIN {
                (
                    Aggregator {
                        state: AggregatorState::Delta { offset: (offset - delta) as i128 },
                        ..a
                    },
                    Ok(()),
                )
            } else {
                (a, Err(AggregatorError::Underflow))
            }
        },
        AggregatorState::Materialized { value } => {
            if value >= delta {
                (
                    Aggregator {
                        state: AggregatorState::Materialized { value: (value - delta) as u128 },
                        ..a
                    },
                    Ok(()),
                )
            } else {
                (a, Err(AggregatorError::Underflow))
            }
        },
    }
}

/// One `read_value` step: given the base value the resolver answered (or
/// `None` when it knew no such counter), how the aggregator and the result
/// relate to the state before the read. A materialized aggregator answers
/// from its stored value and consults no base at all.
pub open spec fn read_step(
    pre: Aggregator,
    base: Option<u128>,
    post: Aggregator,
    res: Result<u128, AggregatorError>,
) -> bool {
    match pre.state {
        AggregatorState::Materialized { value } => {
            post == pre && res == Ok::<u128, AggregatorError>(value)
        },
        AggregatorState::Delta { offset } => {
            match base {
                None => post == pre && res == Err::<u128, AggregatorError>(
                    AggregatorError::UnknownAggregator,
                ),
                Some(b) => {
                    match resolve_spec(b, offset, pre.limit) {
                        Ok(v) => {
                            post == (Aggregator {
                                state: AggregatorState::Materialized { value: v },
                                ..pre
                            }) && res == Ok::<u128, AggregatorError>(v)
                        },
                        Err(e) => post == pre && res == Err::<u128, AggregatorError>(e),
                    }
                },
            }
        },
    }
}

/// What committing an aggregator hands off to the outer system: a pure,
/// order-independent delta when the value was never materialized, or the
/// concrete value once a read forced resolution.
#[derive(Clone, Copy, Debug, PartialEq, Eq, Structural)]
pub enum CommitEffect {
    /// The net signed offset plus the bound, to be applied against whatever
    /// the true base turns out to be at serialization time.
    PureDelta { offset: i128, limit: u128 },
    /// The bound-checked value a read already resolved.
    MaterializedValue { value: u128 },
}

impl Aggregator {
    /// A materialized value never exceeds the limit.
    pub open spec fn wf(self) -> bool {
        self.state matches AggregatorState::Materialized { value } ==> value <= self.limit
    }

    /// A brand-new aggregator always starts in `Delta(0)`.
    pub fn new(id: AggregatorID, limit: u128) -> (a: Aggregator)
        ensures
            a == (Aggregator { id, limit, state: AggregatorState::Delta { offset: 0 } }),
            a.wf(),
    {
        Aggregator { id, limit, state: AggregatorState::Delta { offset: 0 } }
    }

    /// Merges `+delta` into the pending state, exactly as `add_spec` says:
    /// unchecked accumulation in `Delta` shape, immediate bound check in
    /// `Materialized` shape. On failure the aggregator is untouched.
    pub fn add(&mut self, delta: u128) -> (res: Result<(), AggregatorError>)
        requires
            old(self).wf(),
        ensures
            (*final(self), res) == add_spec(*old(self), delta),
            final(self).wf(),
            res is Err ==> *final(self) == *old(self) && res == Err::<(), AggregatorError>(
                AggregatorError::Overflow,
            ),
    {
        match self.state {
            AggregatorState::Delta { offset } => {
                match offset.checked_add_unsigned(delta) {
                    Some(o) => {
                        self.state = AggregatorState::Delta { offset: o };
                        Ok(())
                    },
                    None => Err(AggregatorError::Overflow),
                }
            },
            AggregatorState::Materialized { value } => {
                match value.checked_add(delta) {
                    Some(v) => {
                        if v <= self.limit {
                            self.state = AggregatorState::Materialized { value: v };
                            Ok(())
                        } else {
                            Err(AggregatorError::Overflow)
                        }
                    },
                    None => Err(AggregatorError::Overflow),
                }
            },
        }
    }

    /// Merges `-delta` into the pending state, exactly as `sub_spec` says.
    /// On failure the aggregator is untouched.
    pub fn subtract(&mut self, delta: u128) -> (res: Result<(), AggregatorError>)
        requires
            old(self).wf(),
        ensures
            (*final(self), res) == sub_spec(*old(self), delta),
            final(self).wf(),
            res is Err ==> *final(self) == *old(self) && res == Err::<(), AggregatorError>(
                AggregatorError::Underflow,
            ),
    {
        match self.state {
            AggregatorState::Delta { offset } => {
                match offset.checked_sub_unsigned(delta) {
                    Some(o) => {
                        self.state = AggregatorState::Delta { offset: o };
                        Ok(())
                    },
                    None => Err(AggregatorError::Underflow),
                }
            },
            AggregatorState::Materialized { value } => {
                if value >= delta {
                    self.state = AggregatorState::Materialized { value: value - delta };
                    Ok(())
                } else {
                    Err(AggregatorError::Underflow)
                }
            },
        }
    }

    /// Reads the aggregator's value. A materialized aggregator answers
    /// directly, leaving the resolver untouched (memoization). A delta
    /// aggregator asks the resolver for the base exactly once, resolves the
    /// offset against it with a bound check, and materializes on success;
    /// on any failure the aggregator is untouched.
    pub fn read_value<R: BaseResolver>(&mut self, resolver: &mut R) -> (res: Result<
        u128,
        AggregatorError,
    >)
        requires
            old(self).wf(),
        ensures
            exists|base: Option<u128>| read_step(*old(self), base, *final(self), res),
            old(self).state is Materialized ==> *final(resolver) == *old(resolver),
            res matches Ok(v) ==> final(self).state == (AggregatorState::Materialized { value: v }),
            res is Err ==> *final(self) == *old(self),
            final(self).wf(),
            final(self).id == old(self).id && final(self).limit == old(self).limit,
    {
        match self.state {
            AggregatorState::Materialized { value } => {
                proof {
                    assert(read_step(*old(self), None, *self, Ok(value)));
                }
                Ok(value)
            },
            AggregatorState::Delta { offset } => {
                match resolver.resolve_base(&self.id) {
                    None => {
                        proof {
                            assert(read_step(
                                *old(self),
                                None,
                                *self,
                                Err(AggregatorError::UnknownAggregator),
                            ));
                        }
                        Err(AggregatorError::UnknownAggregator)
                    },
                    Some(base) => {
                        match resolve(base, offset, self.limit) {
                            Ok(v) => {
                                self.state = AggregatorState::Materialized { value: v };
                                proof {
                                    assert(read_step(*old(self), Some(base), *self, Ok(v)));
                                }
                                Ok(v)
                            },
                            Err(e) => {
                                proof {
                                    assert(read_step(*old(self), Some(base), *self, Err(e)));
                                }
                                Err(e)
                            },
                        }
                    },
                }
            },
        }
    }

    /// Finalizes the aggregator for hand-off. Never fails: a counter that was
    /// only ever mutated commits a pure delta, one that was read commits its
    /// materialized value.
    pub fn commit(self) -> (res: Result<CommitEffect, AggregatorError>)
        requires
            self.wf(),
        ensures
            self.state matches AggregatorState::Delta { offset } ==> res == Ok::<
                CommitEffect,
                AggregatorError,
            >(CommitEffect::PureDelta { offset, limit: self.limit }),
            self.state matches AggregatorState::Materialized { value } ==> res == Ok::<
                CommitEffect,
                AggregatorError,
            >(CommitEffect::MaterializedValue { value }),
            res is Ok,
    {
        match self.state {
            AggregatorState::Delta { offset } => {
                Ok(CommitEffect::PureDelta { offset, limit: self.limit })
            },
            AggregatorState::Materialized { value } => {
                Ok(CommitEffect::MaterializedValue { value })
            },
        }
    }
}

} // verus!
