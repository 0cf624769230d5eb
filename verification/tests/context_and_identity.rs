use std::collections::HashSet;

use aggregator::aggregator::AggregatorID;
use aggregator::aggregator::AggregatorState;
use aggregator::aggregator::BaseResolver;
use aggregator::aggregator::CommitEffect;
use aggregator::context::AggregatorContext;
use aggregator::errors::AggregatorError;
use aggregator::identity::u128_from_be_prefix;
use aggregator::identity::u128_to_be_bytes;
use aggregator::natives::native_new_aggregator;
use aggregator::natives::GasParameters;
use aggregator::natives::NewAggregatorGasParameters;
use sha3::Digest;
use sha3::Sha3_256;

/// A test resolver that answers a fixed base value and counts how often it
/// was consulted.
struct FixedResolver {
    base: Option<u128>,
    calls: usize,
}

impl BaseResolver for FixedResolver {
    fn resolve_base(&mut self, _id: &AggregatorID) -> Option<u128> {
        self.calls += 1;
        self.base
    }
}

#[test]
fn be_bytes_round_trip() {
    let bytes = u128_to_be_bytes(1);
    let mut expected = vec![0u8; 15];
    expected.push(1);
    assert_eq!(bytes, expected);

    let x = 0x0102030405060708090a0b0c0d0e0f10u128;
    let bytes = u128_to_be_bytes(x);
    assert_eq!(bytes, (1u8..=16u8).collect::<Vec<u8>>());
    assert_eq!(u128_from_be_prefix(&bytes), x);

    let bytes = u128_to_be_bytes(u128::MAX);
    assert_eq!(bytes, vec![0xffu8; 16]);
    assert_eq!(u128_from_be_prefix(&bytes), u128::MAX);
}

#[test]
fn derive_matches_the_digest_of_both_encodings() {
    let txn_hash: u128 = 5;
    let creation_seq: u128 = 0;
    let mut input = Vec::new();
    input.extend_from_slice(&txn_hash.to_be_bytes());
    input.extend_from_slice(&creation_seq.to_be_bytes());
    let digest = Sha3_256::digest(&input);
    let expected = u128::from_be_bytes(digest[..16].try_into().unwrap());

    let id = aggregator::identity::derive(7, txn_hash, creation_seq);
    assert_eq!(id.handle, 7);
    assert_eq!(id.key, expected);
    // The key really comes out of the digest, not out of the inputs.
    assert_ne!(id.key, txn_hash);

    // Deterministic: the same transaction and creation order give the same key.
    let again = aggregator::identity::derive(7, txn_hash, creation_seq);
    assert_eq!(id, again);
}

#[test]
fn derived_keys_are_unique_under_one_transaction() {
    // Uniqueness property: many creation sequence numbers under one
    // transaction digest give pairwise distinct keys.
    let txn_hash: u128 = 0xfeed_beef;
    let mut seen: HashSet<u128> = HashSet::new();
    for seq in 0..10_000u128 {
        let id = aggregator::identity::derive(1, txn_hash, seq);
        assert!(seen.insert(id.key), "key collision at sequence {}", seq);
    }
    assert_eq!(seen.len(), 10_000);
}

#[test]
fn created_counters_never_collide() {
    let mut ctx = AggregatorContext::new(0xabcdef);
    let mut seen: HashSet<u128> = HashSet::new();
    for _ in 0..1_000 {
        let descriptor = ctx.create(3, 100).expect("creation must succeed");
        assert_eq!(descriptor.handle, 3);
        assert_eq!(descriptor.limit, 100);
        assert!(seen.insert(descriptor.key));
    }
    assert_eq!(ctx.table.num_aggregators(), 1_000);
}

#[test]
fn end_to_end_pure_delta_commit() {
    // Create a counter with limit 1000, add 400, add 300, and commit without
    // ever reading: the effect is a pure delta of +700 and the base resolver
    // is never invoked.
    let mut ctx = AggregatorContext::new(77);
    let descriptor = ctx.create(11, 1000).expect("creation must succeed");
    let id = AggregatorID::new(descriptor.handle, descriptor.key);
    assert_eq!(ctx.add(&id, 400), Ok(()));
    assert_eq!(ctx.add(&id, 300), Ok(()));
    assert_eq!(
        ctx.table.commit_aggregator(&id),
        Ok(CommitEffect::PureDelta { offset: 700, limit: 1000 })
    );
}

#[test]
fn context_read_and_subtract() {
    let mut ctx = AggregatorContext::new(9);
    let descriptor = ctx.create(2, 100).expect("creation must succeed");
    let id = AggregatorID::new(descriptor.handle, descriptor.key);
    assert_eq!(ctx.subtract(&id, 30), Ok(()));
    let mut r = FixedResolver { base: Some(40), calls: 0 };
    assert_eq!(ctx.read(&id, &mut r), Ok(10));
    assert_eq!(r.calls, 1);
    assert_eq!(ctx.read(&id, &mut r), Ok(10));
    assert_eq!(r.calls, 1);
}

#[test]
fn get_or_create_reuses_the_handle() {
    let mut ctx = AggregatorContext::new(123);
    let first = ctx.get_or_create(5, 100);
    assert_eq!(ctx.table.num_aggregators(), 1);
    let second = ctx.get_or_create(5, 999);
    assert_eq!(first, second);
    // The existing counter is reused: nothing new was created and the
    // first bound is kept.
    assert_eq!(ctx.table.num_aggregators(), 1);
    assert_eq!(ctx.table.aggregators[first].limit, 100);

    let other = ctx.get_or_create(6, 100);
    assert_ne!(first, other);
    assert_eq!(ctx.table.num_aggregators(), 2);
}

#[test]
fn native_new_aggregator_charges_the_flat_cost() {
    let gas = GasParameters {
        new_aggregator: NewAggregatorGasParameters { base: 8 },
    };
    let mut ctx = AggregatorContext::new(55);
    let (cost, descriptor) =
        native_new_aggregator(&gas.new_aggregator, &mut ctx, 4, 250).expect("must succeed");
    assert_eq!(cost, 8);
    assert_eq!(descriptor.handle, 4);
    assert_eq!(descriptor.limit, 250);
    let id = AggregatorID::new(descriptor.handle, descriptor.key);
    assert_eq!(ctx.add(&id, 250), Ok(()));
    assert_eq!(
        ctx.table.aggregators[0].state,
        AggregatorState::Delta { offset: 250 }
    );
}

#[test]
fn unknown_id_through_the_context() {
    let mut ctx = AggregatorContext::new(1);
    let missing = AggregatorID::new(8, 8);
    assert_eq!(ctx.add(&missing, 1), Err(AggregatorError::UnknownAggregator));
    assert_eq!(
        ctx.subtract(&missing, 1),
        Err(AggregatorError::UnknownAggregator)
    );
}
