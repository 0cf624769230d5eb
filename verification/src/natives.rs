use vstd::prelude::*;

use crate::context::AggregatorContext;
use crate::context::AggregatorHandleDescriptor;
use crate::errors::AggregatorError;

verus! {

/// Gas charged for one counter creation: a flat cost supplied externally and
/// opaque to this core; it is only attached to the operation's result.
#[derive(Clone, Copy, Debug, PartialEq, Eq, Structural)]
pub struct NewAggregatorGasParameters {
    pub base: u64,
}

/// Gas parameters of every native counter operation.
#[derive(Clone, Copy, Debug, PartialEq, Eq, Structural)]
pub struct GasParameters {
    pub new_aggregator: NewAggregatorGasParameters,
}

/// Native counter creation: derives a fresh id for `handle`, inserts a new
/// aggregator in `Delta(0)` state with the given bound, and returns the flat
/// cost to charge together with the descriptor to embed back into
/// caller-visible state. Fails only on the hash-collision edge case, with
/// `DuplicateIdentity` and the context untouched.
pub fn native_new_aggregator(
    gas_params: &NewAggregatorGasParameters,
    context: &mut AggregatorContext,
    handle: u128,
    limit: u128,
) -> (res: Result<(u64, AggregatorHandleDescriptor), AggregatorError>)
    requires
        old(context).wf(),
        old(context).table.num_created < u128::MAX,
    ensures
        final(context).wf(),
        final(context).txn_hash == old(context).txn_hash,
        old(context).table.contains_id(old(context).next_id(handle)) ==> res == Err::<
            (u64, AggregatorHandleDescriptor),
            AggregatorError,
        >(AggregatorError::DuplicateIdentity) && *final(context) == *old(context),
        !old(context).table.contains_id(old(context).next_id(handle)) ==> res == Ok::<
            (u64, AggregatorHandleDescriptor),
            AggregatorError,
        >(
            (
                gas_params.base,
                AggregatorHandleDescriptor { handle, key: old(context).next_id(handle).key, limit },
            ),
        ) && final(context).table.num_created == old(context).table.num_created + 1,
{
    match context.create(handle, limit) {
        Ok(descriptor) => Ok((gas_params.base, descriptor)),
        Err(e) => Err(e),
    }
}

} // verus!
