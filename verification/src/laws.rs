use vstd::prelude::*;

use crate::aggregator::add_spec;
use crate::aggregator::read_step;
use crate::aggregator::sub_spec;
use crate::aggregator::Aggregator;
use crate::aggregator::AggregatorState;
use crate::errors::AggregatorError;

verus! {

/// One delta mutation of a counter: merge `+amount` or `-amount`.
#[derive(Clone, Copy, Debug, PartialEq, Eq, Structural)]
pub enum DeltaOp {
    Add { amount: u128 },
    Subtract { amount: u128 },
}

/// The signed contribution of one operation.
pub open spec fn op_value(op: DeltaOp) -> int {
    match op {
        DeltaOp::Add { amount } => amount as int,
        DeltaOp::Subtract { amount } => -(amount as int),
    }
}

/// The algebraic sum of a sequence of delta operations.
pub open spec fn signed_sum(ops: Seq<DeltaOp>) -> int
    decreases ops.len(),
{
    if ops.len() == 0 {
        0
    } else {
        signed_sum(ops.drop_last()) + op_value(ops.last())
    }
}

/// One operation merged into an aggregator.
pub open spec fn apply_op(a: Aggregator, op: DeltaOp) -> (Aggregator, Result<
    (),
    AggregatorError,
>) {
    match op {
        DeltaOp::Add { amount } => add_spec(a, amount),
        DeltaOp::Subtract { amount } => sub_spec(a, amount),
    }
}

/// A sequence of operations merged left to right; the flag says whether every
/// single operation succeeded.
pub open spec fn apply_ops(a: Aggregator, ops: Seq<DeltaOp>) -> (Aggregator, bool)
    decreases ops.len(),
{
    if ops.len() == 0 {
        (a, true)
    } else {
        let prev = apply_ops(a, ops.drop_last());
        let step = apply_op(prev.0, ops.last());
        (step.0, prev.1 && step.1 is Ok)
    }
}

/// Applying operations to a delta-state aggregator accumulates exactly the
/// algebraic sum of the operations, as long as every step succeeded.
pub proof fn lemma_delta_accumulates(a: Aggregator, ops: Seq<DeltaOp>, offset: i128)
    requires
        a.state == (AggregatorState::Delta { offset }),
        apply_ops(a, ops).1,
    ensures
        i128::MIN <= offset + signed_sum(ops) <= i128::MAX,
        apply_ops(a, ops).0 == (Aggregator {
            state: AggregatorState::Delta { offset: (offset + signed_sum(ops)) as i128 },
            ..a
        }),
    decreases ops.len(),
{
    if ops.len() == 0 {
    } else {
        lemma_delta_accumulates(a, ops.drop_last(), offset);
    }
}

/// Removing one operation from a sequence takes exactly its contribution out
/// of the algebraic sum.
pub proof fn lemma_signed_sum_remove(s: Seq<DeltaOp>, i: int)
    requires
        0 <= i < s.len(),
    ensures
        signed_sum(s.remove(i)) == signed_sum(s) - op_value(s[i]),
    decreases s.len(),
{
    if i == s.len() - 1 {
        assert(s.remove(i) =~= s.drop_last());
    } else {
        assert(s.remove(i).drop_last() =~= s.drop_last().remove(i));
        lemma_signed_sum_remove(s.drop_last(), i);
    }
}

/// The algebraic sum depends only on which operations occur, not on their
/// order.
pub proof fn lemma_signed_sum_permutation(s1: Seq<DeltaOp>, s2: Seq<DeltaOp>)
    requires
        s1.to_multiset() == s2.to_multiset(),
    ensures
        signed_sum(s1) == signed_sum(s2),
    decreases s1.len(),
{
    broadcast use vstd::seq_lib::group_to_multiset_ensures;

    if s1.len() == 0 {
        assert(s1.to_multiset().len() == s1.len());
        assert(s2.to_multiset().len() == s2.len());
    } else {
        let x = s1.last();
        assert(s1.contains(x));
        assert(s2.to_multiset().count(x) > 0);
        assert(s2.contains(x));
        let j = choose|j: int| 0 <= j < s2.len() && s2[j] == x;
        assert(s1.remove(s1.len() - 1).to_multiset() == s2.remove(j).to_multiset());
        assert(s1.remove(s1.len() - 1) =~= s1.drop_last());
        lemma_signed_sum_permutation(s1.drop_last(), s2.remove(j));
        lemma_signed_sum_remove(s2, j);
    }
}

/// Commutativity of deltas: merging the same collection of add and subtract
/// operations into a delta-state aggregator, in any order, leaves it with the
/// same accumulated offset: the algebraic sum of the operations.
pub proof fn lemma_delta_ops_commute(
    a: Aggregator,
    ops1: Seq<DeltaOp>,
    ops2: Seq<DeltaOp>,
    offset: i128,
)
    requires
        a.state == (AggregatorState::Delta { offset }),
        ops1.to_multiset() == ops2.to_multiset(),
        apply_ops(a, ops1).1,
        apply_ops(a, ops2).1,
    ensures
        apply_ops(a, ops1).0 == apply_ops(a, ops2).0,
        apply_ops(a, ops1).0.state == (AggregatorState::Delta {
            offset: (offset + signed_sum(ops1)) as i128,
        }),
{
    lemma_delta_accumulates(a, ops1, offset);
    lemma_delta_accumulates(a, ops2, offset);
    lemma_signed_sum_permutation(ops1, ops2);
}

/// `Materialized` is terminal: no operation ever takes an aggregator back to
/// the delta shape.
pub proof fn lemma_materialized_is_terminal(
    a: Aggregator,
    op: DeltaOp,
    base: Option<u128>,
    post: Aggregator,
    res: Result<u128, AggregatorError>,
)
    requires
        a.state is Materialized,
    ensures
        apply_op(a, op).0.state is Materialized,
        read_step(a, base, post, res) ==> post.state is Materialized,
{
}

/// Memoization and idempotence of reads: once a read has succeeded, a second
/// read returns the same value and changes the aggregator no further,
/// whatever base value it may still be handed.
pub proof fn lemma_read_memoized(
    a0: Aggregator,
    b1: Option<u128>,
    a1: Aggregator,
    r1: Result<u128, AggregatorError>,
    b2: Option<u128>,
    a2: Aggregator,
    r2: Result<u128, AggregatorError>,
    v: u128,
)
    requires
        read_step(a0, b1, a1, r1),
        r1 == Ok::<u128, AggregatorError>(v),
        read_step(a1, b2, a2, r2),
    ensures
        r2 == Ok::<u128, AggregatorError>(v),
        a2 == a1,
        a1.state == (AggregatorState::Materialized { value: v }),
{
}

} // verus!
