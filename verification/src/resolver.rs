use vstd::prelude::*;

use crate::errors::AggregatorError;

verus! {

/// What resolving a base value against an accumulated signed offset yields:
/// the merged value when it lies within `[0, limit]`, and the direction of
/// the bound violation otherwise.
pub open spec fn resolve_spec(base: u128, offset: i128, limit: u128) -> Result<
    u128,
    AggregatorError,
> {
    if base + offset < 0 {
        Err(AggregatorError::Underflow)
    } else if base + offset > limit {
        Err(AggregatorError::Overflow)
    } else {
        Ok((base + offset) as u128)
    }
}

/// Merge/commit resolver: combines a durable base value with an accumulated
/// signed offset, detecting both directions of bound violation before
/// truncating, and classifies the failure kind.
pub fn resolve(base: u128, offset: i128, limit: u128) -> (res: Result<u128, AggregatorError>)
    ensures
        res == resolve_spec(base, offset, limit),
        res matches Ok(v) ==> v == base + offset && 0 <= v <= limit,
        res == Err::<u128, AggregatorError>(AggregatorError::Underflow) <==> base + offset < 0,
        res == Err::<u128, AggregatorError>(AggregatorError::Overflow) <==> base + offset > limit,
{
    match base.checked_add_signed(offset) {
        Some(v) => {
            if v > limit {
                Err(AggregatorError::Overflow)
            } else {
                Ok(v)
            }
        },
        None => {
            if offset < 0 {
                Err(AggregatorError::Underflow)
            } else {
                Err(AggregatorError::Overflow)
            }
        },
    }
}

} // verus!
