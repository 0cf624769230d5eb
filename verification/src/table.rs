use vstd::prelude::*;

use crate::aggregator::add_spec;
use crate::aggregator::read_step;
use crate::aggregator::sub_spec;
use crate::aggregator::Aggregator;
use crate::aggregator::AggregatorID;
use crate::aggregator::AggregatorState;
use crate::aggregator::BaseResolver;
use crate::aggregator::CommitEffect;
use crate::errors::AggregatorError;

verus! {

/// The per-execution-context store of live aggregators: a mapping from
/// `AggregatorID` to `Aggregator` with unique keys, plus a monotonically
/// increasing creation counter that feeds the identity deriver.
pub struct AggregatorTable {
    pub aggregators: Vec<Aggregator>,
    pub num_created: u128,
}

impl AggregatorTable {
    /// Ids are unique, every entry keeps its own invariant, and the creation
    /// counter covers everything the table ever created.
    pub open spec fn wf(self) -> bool {
        &&& forall|i: int, j: int|
            0 <= i < j < self.aggregators@.len() ==> self.aggregators@[i].id
                != self.aggregators@[j].id
        &&& forall|i: int| 0 <= i < self.aggregators@.len() ==> (#[trigger] self.aggregators@[i]).wf()
    }

    /// Whether the table holds an aggregator with this id.
    pub open spec fn contains_id(self, id: AggregatorID) -> bool {
        exists|i: int| 0 <= i < self.aggregators@.len() && self.aggregators@[i].id == id
    }

    /// The position of the aggregator with this id.
    pub open spec fn index_of(self, id: AggregatorID) -> int {
        choose|i: int| 0 <= i < self.aggregators@.len() && self.aggregators@[i].id == id
    }

    /// A fresh table: no aggregators, nothing created yet.
    pub fn new() -> (t: AggregatorTable)
        ensures
            t.aggregators@ =~= Seq::<Aggregator>::empty(),
            t.num_created == 0,
            t.wf(),
    {
        AggregatorTable { aggregators: Vec::new(), num_created: 0 }
    }

    /// The creation counter: how many aggregators this context has created.
    /// Read-only; it feeds the identity deriver.
    pub fn num_aggregators(&self) -> (n: u128)
        ensures
            n == self.num_created,
    {
        self.num_created
    }

    /// Finds the position of the aggregator with this id, if any.
    fn position_of(&self, id: &AggregatorID) -> (pos: Option<usize>)
        ensures
            match pos {
                Some(i) => i < self.aggregators@.len() && self.aggregators@[i as int].id == *id,
                None => !self.contains_id(*id),
            },
    {
        let n = self.aggregators.len();
        let mut i: usize = 0;
        while i < n
            invariant
                i <= n,
                n == self.aggregators@.len(),
                forall|j: int| 0 <= j < i ==> self.aggregators@[j].id != *id,
            decreases n - i,
        {
            if self.aggregators[i].id == *id {
                return Some(i);
            }
            i = i + 1;
        }
        None
    }

    /// Inserts a brand-new aggregator in `Delta(0)` state with the given
    /// bound, and counts the creation. Fails with `DuplicateIdentity`, and
    /// changes nothing, when the id is already present: creation is only ever
    /// invoked right after a fresh id was derived, so a collision is a caller
    /// error, not a normal runtime condition.
    pub fn create_new_aggregator(&mut self, id: AggregatorID, limit: u128) -> (res: Result<
        (),
        AggregatorError,
    >)
        requires
            old(self).wf(),
            old(self).num_created < u128::MAX,
        ensures
            final(self).wf(),
            old(self).contains_id(id) ==> res == Err::<(), AggregatorError>(
                AggregatorError::DuplicateIdentity,
            ) && *final(self) == *old(self),
            !old(self).contains_id(id) ==> res == Ok::<(), AggregatorError>(())
                && final(self).aggregators@ =~= old(self).aggregators@.push(
                Aggregator { id, limit, state: AggregatorState::Delta { offset: 0 } },
            ) && final(self).num_created == old(self).num_created + 1,
    {
        match self.position_of(&id) {
            Some(_) => Err(AggregatorError::DuplicateIdentity),
            None => {
                let fresh = Aggregator::new(id, limit);
                self.aggregators.push(fresh);
                self.num_created = self.num_created + 1;
                Ok(())
            },
        }
    }

    /// Merges `+delta` into the aggregator with this id, exactly as
    /// `add_spec` says of that entry; everything else is untouched. Fails
    /// with `UnknownAggregator`, changing nothing, when the id is absent.
    pub fn add(&mut self, id: &AggregatorID, delta: u128) -> (res: Result<(), AggregatorError>)
        requires
            old(self).wf(),
        ensures
            final(self).wf(),
            final(self).num_created == old(self).num_created,
            !old(self).contains_id(*id) ==> res == Err::<(), AggregatorError>(
                AggregatorError::UnknownAggregator,
            ) && *final(self) == *old(self),
            old(self).contains_id(*id) ==> ({
                let i = old(self).index_of(*id);
                let step = add_spec(old(self).aggregators@[i], delta);
                final(self).aggregators@ =~= old(self).aggregators@.update(i, step.0) && res
                    == step.1
            }),
    {
        match self.position_of(id) {
            None => Err(AggregatorError::UnknownAggregator),
            Some(i) => {
                proof {
                    lemma_unique_index(*self, *id, i as int);
                }
                let entry = &mut self.aggregators[i];
                entry.add(delta)
            },
        }
    }

    /// Merges `-delta` into the aggregator with this id, exactly as
    /// `sub_spec` says of that entry; everything else is untouched. Fails
    /// with `UnknownAggregator`, changing nothing, when the id is absent.
    pub fn subtract(&mut self, id: &AggregatorID, delta: u128) -> (res: Result<
        (),
        AggregatorError,
    >)
        requires
            old(self).wf(),
        ensures
            final(self).wf(),
            final(self).num_created == old(self).num_created,
            !old(self).contains_id(*id) ==> res == Err::<(), AggregatorError>(
                AggregatorError::UnknownAggregator,
            ) && *final(self) == *old(self),
            old(self).contains_id(*id) ==> ({
                let i = old(self).index_of(*id);
                let step = sub_spec(old(self).aggregators@[i], delta);
                final(self).aggregators@ =~= old(self).aggregators@.update(i, step.0) && res
                    == step.1
            }),
    {
        match self.position_of(id) {
            None => Err(AggregatorError::UnknownAggregator),
            Some(i) => {
                proof {
                    lemma_unique_index(*self, *id, i as int);
                }
                let entry = &mut self.aggregators[i];
                entry.subtract(delta)
            },
        }
    }

    /// Reads the value of the aggregator with this id, materializing it
    /// through the base resolver when it is still a delta, exactly as
    /// `read_step` says of that entry for the base the resolver answered.
    /// Fails with `UnknownAggregator`, changing nothing, when the id is
    /// absent from the table.
    pub fn read_value<R: BaseResolver>(
        &mut self,
        id: &AggregatorID,
        resolver: &mut R,
    ) -> (res: Result<u128, AggregatorError>)
        requires
            old(self).wf(),
        ensures
            final(self).wf(),
            final(self).num_created == old(self).num_created,
            !old(self).contains_id(*id) ==> res == Err::<u128, AggregatorError>(
                AggregatorError::UnknownAggregator,
            ) && *final(self) == *old(self) && *final(resolver) == *old(resolver),
            old(self).contains_id(*id) ==> ({
                let i = old(self).index_of(*id);
                exists|base: Option<u128>|
                    read_step(
                        old(self).aggregators@[i],
                        base,
                        final(self).aggregators@[i],
                        res,
                    ) && final(self).aggregators@ =~= old(self).aggregators@.update(
                        i,
                        final(self).aggregators@[i],
                    )
            }),
    {
        match self.position_of(id) {
            None => Err(AggregatorError::UnknownAggregator),
            Some(i) => {
                proof {
                    lemma_unique_index(*self, *id, i as int);
                }
                let entry = &mut self.aggregators[i];
                entry.read_value(resolver)
            },
        }
    }

    /// Removes the aggregator with this id and finalizes it: the table's
    /// entry is handed off as a commit effect, the creation counter is kept
    /// (it never decreases). Fails with `UnknownAggregator`, changing
    /// nothing, when the id is absent.
    pub fn commit_aggregator(&mut self, id: &AggregatorID) -> (res: Result<
        CommitEffect,
        AggregatorError,
    >)
        requires
            old(self).wf(),
        ensures
            final(self).wf(),
            final(self).num_created == old(self).num_created,
            !old(self).contains_id(*id) ==> res == Err::<CommitEffect, AggregatorError>(
                AggregatorError::UnknownAggregator,
            ) && *final(self) == *old(self),
            old(self).contains_id(*id) ==> ({
                let i = old(self).index_of(*id);
                let entry = old(self).aggregators@[i];
                final(self).aggregators@ =~= old(self).aggregators@.remove(i) && res == Ok::<
                    CommitEffect,
                    AggregatorError,
                >(
                    match entry.state {
                        AggregatorState::Delta { offset } => CommitEffect::PureDelta {
                            offset,
                            limit: entry.limit,
                        },
                        AggregatorState::Materialized { value } => CommitEffect::MaterializedValue {
                            value,
                        },
                    },
                )
            }),
    {
        match self.position_of(id) {
            None => Err(AggregatorError::UnknownAggregator),
            Some(i) => {
                proof {
                    lemma_unique_index(*self, *id, i as int);
                }
                let entry = self.aggregators.remove(i);
                entry.commit()
            },
        }
    }
}

/// In a well-formed table the position an id is found at is the one position
/// `index_of` names.
proof fn lemma_unique_index(t: AggregatorTable, id: AggregatorID, i: int)
    requires
        t.wf(),
        0 <= i < t.aggregators@.len(),
        t.aggregators@[i].id == id,
    ensures
        t.contains_id(id),
        t.index_of(id) == i,
{
    let j = t.index_of(id);
    assert(0 <= j < t.aggregators@.len() && t.aggregators@[j].id == id);
}

} // verus!
