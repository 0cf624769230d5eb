use vstd::prelude::*;

use crate::aggregator::add_spec;
use crate::aggregator::read_step;
use crate::aggregator::sub_spec;
use crate::aggregator::Aggregator;
use crate::aggregator::AggregatorID;
use crate::aggregator::AggregatorState;
use crate::aggregator::BaseResolver;
use crate::errors::AggregatorError;
use crate::identity::derived_key;
use crate::table::AggregatorTable;

verus! {

/// Descriptor of a freshly created counter, suitable for embedding back into
/// caller-visible state: the owning handle, the derived key, and the bound.
#[derive(Clone, Copy, Debug, PartialEq, Eq, Structural)]
pub struct AggregatorHandleDescriptor {
    pub handle: u128,
    pub key: u128,
    pub limit: u128,
}

/// The per-transaction handle the operation layer works through: the
/// transaction's identity digest (constant for the whole execution context,
/// supplied externally) and the context's own aggregator table.
pub struct AggregatorContext {
    pub txn_hash: u128,
    pub table: AggregatorTable,
}

impl AggregatorContext {
    pub open spec fn wf(self) -> bool {
        self.table.wf()
    }

    /// The id `create` will derive next: the context's transaction digest
    /// keyed by the current creation counter.
    pub open spec fn next_id(self, handle: u128) -> AggregatorID {
        AggregatorID { handle, key: derived_key(self.txn_hash, self.table.num_created) as u128 }
    }

    /// A fresh execution context for the transaction with this digest.
    pub fn new(txn_hash: u128) -> (ctx: AggregatorContext)
        ensures
            ctx.txn_hash == txn_hash,
            ctx.table.aggregators@ =~= Seq::<Aggregator>::empty(),
            ctx.table.num_created == 0,
            ctx.wf(),
    {
        AggregatorContext { txn_hash, table: AggregatorTable::new() }
    }

    /// The digest identifying the currently executing transaction.
    pub fn txn_hash(&self) -> (h: u128)
        ensures
            h == self.txn_hash,
    {
        self.txn_hash
    }

    /// Creates a brand-new counter under `handle` with the given bound: the
    /// identity deriver produces the key from the transaction digest and the
    /// creation counter, and the new aggregator starts in `Delta(0)`. Fails
    /// with `DuplicateIdentity`, changing nothing, on the hash-collision edge
    /// case where the derived id is already present.
    pub fn create(&mut self, handle: u128, limit: u128) -> (res: Result<
        AggregatorHandleDescriptor,
        AggregatorError,
    >)
        requires
            old(self).wf(),
            old(self).table.num_created < u128::MAX,
        ensures
            final(self).wf(),
            final(self).txn_hash == old(self).txn_hash,
            old(self).table.contains_id(old(self).next_id(handle)) ==> res == Err::<
                AggregatorHandleDescriptor,
                AggregatorError,
            >(AggregatorError::DuplicateIdentity) && *final(self) == *old(self),
            !old(self).table.contains_id(old(self).next_id(handle)) ==> ({
                let id = old(self).next_id(handle);
                &&& res == Ok::<AggregatorHandleDescriptor, AggregatorError>(
                    AggregatorHandleDescriptor { handle, key: id.key, limit },
                )
                &&& final(self).table.aggregators@ =~= old(self).table.aggregators@.push(
                    Aggregator { id, limit, state: AggregatorState::Delta { offset: 0 } },
                )
                &&& final(self).table.num_created == old(self).table.num_created + 1
            }),
    {
        let id = crate::identity::derive(handle, self.txn_hash, self.table.num_aggregators());
        match self.table.create_new_aggregator(id, limit) {
            Ok(()) => Ok(AggregatorHandleDescriptor { handle, key: id.key, limit }),
            Err(e) => Err(e),
        }
    }

    /// Locates the first counter under `handle`, or synthesizes one through
    /// the identity deriver and the create path, and returns its position in
    /// the table. Collaborators that only ever touch a single shared counter
    /// per handle use this path.
    pub fn get_or_create(&mut self, handle: u128, limit: u128) -> (pos: usize)
        requires
            old(self).wf(),
            old(self).table.num_created < u128::MAX,
        ensures
            final(self).wf(),
            final(self).txn_hash == old(self).txn_hash,
            pos < final(self).table.aggregators@.len(),
            final(self).table.aggregators@[pos as int].id.handle == handle,
            forall|j: int| 0 <= j < pos ==> final(self).table.aggregators@[j].id.handle != handle,
            (exists|i: int|
                0 <= i < old(self).table.aggregators@.len() && old(
                    self,
                ).table.aggregators@[i].id.handle == handle) ==> *final(self) == *old(self),
            !(exists|i: int|
                0 <= i < old(self).table.aggregators@.len() && old(
                    self,
                ).table.aggregators@[i].id.handle == handle) ==> ({
                &&& final(self).table.aggregators@ =~= old(self).table.aggregators@.push(
                    Aggregator {
                        id: old(self).next_id(handle),
                        limit,
                        state: AggregatorState::Delta { offset: 0 },
                    },
                )
                &&& final(self).table.num_created == old(self).table.num_created + 1
                &&& pos == old(self).table.aggregators@.len()
            }),
    {
        let n = self.table.aggregators.len();
        let mut i: usize = 0;
        while i < n
            invariant
                i <= n,
                *self == *old(self),
                self.wf(),
                n == self.table.aggregators@.len(),
                forall|j: int| 0 <= j < i ==> self.table.aggregators@[j].id.handle != handle,
            decreases n - i,
        {
            if self.table.aggregators[i].id.handle == handle {
                return i;
            }
            i = i + 1;
        }
        let id = crate::identity::derive(handle, self.txn_hash, self.table.num_aggregators());
        let _ = self.table.create_new_aggregator(id, limit);
        self.table.aggregators.len() - 1
    }

    /// Merges `+delta` into the counter with this id, exactly as `add_spec`
    /// says of the table's entry. Fails with `UnknownAggregator`, changing
    /// nothing, when the id is absent.
    pub fn add(&mut self, id: &AggregatorID, delta: u128) -> (res: Result<(), AggregatorError>)
        requires
            old(self).wf(),
        ensures
            final(self).wf(),
            final(self).txn_hash == old(self).txn_hash,
            final(self).table.num_created == old(self).table.num_created,
            !old(self).table.contains_id(*id) ==> res == Err::<(), AggregatorError>(
                AggregatorError::UnknownAggregator,
            ) && *final(self) == *old(self),
            old(self).table.contains_id(*id) ==> ({
                let i = old(self).table.index_of(*id);
                let step = add_spec(old(self).table.aggregators@[i], delta);
                final(self).table.aggregators@ =~= old(self).table.aggregators@.update(i, step.0)
                    && res == step.1
            }),
    {
        self.table.add(id, delta)
    }

    /// Merges `-delta` into the counter with this id, exactly as `sub_spec`
    /// says of the table's entry. Fails with `UnknownAggregator`, changing
    /// nothing, when the id is absent.
    pub fn subtract(&mut self, id: &AggregatorID, delta: u128) -> (res: Result<
        (),
        AggregatorError,
    >)
        requires
            old(self).wf(),
        ensures
            final(self).wf(),
            final(self).txn_hash == old(self).txn_hash,
            final(self).table.num_created == old(self).table.num_created,
            !old(self).table.contains_id(*id) ==> res == Err::<(), AggregatorError>(
                AggregatorError::UnknownAggregator,
            ) && *final(self) == *old(self),
            old(self).table.contains_id(*id) ==> ({
                let i = old(self).table.index_of(*id);
                let step = sub_spec(old(self).table.aggregators@[i], delta);
                final(self).table.aggregators@ =~= old(self).table.aggregators@.update(i, step.0)
                    && res == step.1
            }),
    {
        self.table.subtract(id, delta)
    }

    /// Reads the counter with this id, materializing it through the base
    /// resolver when it is still a delta, exactly as `read_step` says of the
    /// table's entry. Fails with `UnknownAggregator`, changing nothing, when
    /// the id is absent from the table.
    pub fn read<R: BaseResolver>(&mut self, id: &AggregatorID, resolver: &mut R) -> (res: Result<
        u128,
        AggregatorError,
    >)
        requires
            old(self).wf(),
        ensures
            final(self).wf(),
            final(self).txn_hash == old(self).txn_hash,
            final(self).table.num_created == old(self).table.num_created,
            !old(self).table.contains_id(*id) ==> res == Err::<u128, AggregatorError>(
                AggregatorError::UnknownAggregator,
            ) && *final(self) == *old(self) && *final(resolver) == *old(resolver),
            old(self).table.contains_id(*id) ==> ({
                let i = old(self).table.index_of(*id);
                exists|base: Option<u128>|
                    read_step(
                        old(self).table.aggregators@[i],
                        base,
                        final(self).table.aggregators@[i],
                        res,
                    ) && final(self).table.aggregators@ =~= old(self).table.aggregators@.update(
                        i,
                        final(self).table.aggregators@[i],
                    )
            }),
    {
        self.table.read_value(id, resolver)
    }
}

} // verus!
