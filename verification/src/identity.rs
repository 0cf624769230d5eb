use vstd::prelude::*;

use crate::aggregator::AggregatorID;

verus! {

/// `256^n`.
pub open spec fn pow256(n: nat) -> int
    decreases n,
{
    if n == 0 {
        1
    } else {
        256 * pow256((n - 1) as nat)
    }
}

/// The big-endian encoding of `x` in `n` bytes: high-order bytes first, the
/// lowest-order byte last.
pub open spec fn be_bytes(x: int, n: nat) -> Seq<u8>
    decreases n,
{
    if n == 0 {
        Seq::empty()
    } else {
        be_bytes(x / 256, (n - 1) as nat).push((x % 256) as u8)
    }
}

/// The integer a big-endian byte sequence encodes.
pub open spec fn be_decode(s: Seq<u8>) -> int
    decreases s.len(),
{
    if s.len() == 0 {
        0
    } else {
        256 * be_decode(s.drop_last()) + s.last()
    }
}

/// Encodes `x` as 16 big-endian bytes.
pub fn u128_to_be_bytes(x: u128) -> (r: Vec<u8>)
    ensures
        r@ == be_bytes(x as int, 16),
        r@.len() == 16,
{
    let mut r: Vec<u8> = Vec::new();
    let mut cur: u128 = x;
    let mut i: usize = 0;
    while i < 16
        invariant
            i <= 16,
            r@.len() == i,
            be_bytes(x as int, 16) == be_bytes(cur as int, (16 - i) as nat) + r@,
        decreases 16 - i,
    {
        let b: u8 = (cur % 256) as u8;
        proof {
            assert(be_bytes(cur as int, (16 - i) as nat) == be_bytes(
                cur as int / 256,
                (15 - i) as nat,
            ).push(b));
            assert(be_bytes(cur as int / 256, (15 - i) as nat).push(b) + r@ =~= be_bytes(
                cur as int / 256,
                (15 - i) as nat,
            ) + (seq![b] + r@));
        }
        r.insert(0, b);
        cur = cur / 256;
        i = i + 1;
    }
    proof {
        assert(be_bytes(cur as int, 0) + r@ =~= r@);
    }
    r
}

/// Reads the first 16 bytes of `bytes` as a big-endian integer.
pub fn u128_from_be_prefix(bytes: &Vec<u8>) -> (r: u128)
    requires
        bytes@.len() >= 16,
    ensures
        r == be_decode(bytes@.take(16)),
{
    let mut acc: u128 = 0;
    let mut i: usize = 0;
    while i < 16
        invariant
            i <= 16,
            bytes@.len() >= 16,
            acc == be_decode(bytes@.take(i as int)),
            acc < pow256(i as nat),
        decreases 16 - i,
    {
        let b: u8 = bytes[i];
        proof {
            assert(bytes@.take(i + 1).drop_last() =~= bytes@.take(i as int));
            assert(bytes@.take(i + 1).last() == bytes@[i as int]);
            reveal_with_fuel(pow256, 17);
            assert(pow256(16) == 0x100000000000000000000000000000000);
            lemma_pow256_increases(i as nat + 1, 16);
        }
        acc = acc * 256 + (b as u128);
        i = i + 1;
    }
    proof {
        assert(bytes@.take(16) =~= bytes@.take(16int));
    }
    acc
}

/// `256^n` is positive.
pub proof fn lemma_pow256_pos(n: nat)
    ensures
        pow256(n) >= 1,
    decreases n,
{
    if n > 0 {
        lemma_pow256_pos((n - 1) as nat);
    }
}

/// `256^a <= 256^b` when `a <= b`.
pub proof fn lemma_pow256_increases(a: nat, b: nat)
    requires
        a <= b,
    ensures
        pow256(a) <= pow256(b),
    decreases b,
{
    if a < b {
        lemma_pow256_increases(a, (b - 1) as nat);
        lemma_pow256_pos((b - 1) as nat);
    }
}

/// The 32-byte digest the outside hash primitive computes over a byte
/// sequence. Deliberately left without a definition of its own: the digest
/// is consumed as an opaque fixed-width digest service.
pub uninterp spec fn digest_of(bytes: Seq<u8>) -> Seq<u8>;

/// Relies on `sha3::Sha3_256` through the `Digest` trait: the digest depends
/// on the input bytes alone, and is exactly 32 bytes long.
#[verifier::external_body]
fn sha3_256_digest(bytes: &Vec<u8>) -> (r: Vec<u8>)
    ensures
        r@ == digest_of(bytes@),
        r@.len() == 32,
{
    <sha3::Sha3_256 as sha3::Digest>::digest(bytes.as_slice()).to_vec()
}

/// The key the identity deriver assigns to the `creation_seq`-th counter
/// created by the transaction whose digest is `txn_hash`: the first 16 bytes
/// of the digest of the two big-endian encodings, read big-endian. The same
/// transaction and the same creation order always give the same key;
/// truncating the digest to 128 bits is a known, deliberate trade-off.
pub open spec fn derived_key(txn_hash: u128, creation_seq: u128) -> int {
    be_decode(
        digest_of(be_bytes(txn_hash as int, 16) + be_bytes(creation_seq as int, 16)).take(16),
    )
}

/// Identity deriver: deterministically derives a fresh counter identity from
/// the creating transaction's digest, the per-transaction creation sequence
/// number, and the owning collection's handle.
pub fn derive(handle: u128, txn_hash: u128, creation_seq: u128) -> (id: AggregatorID)
    ensures
        id.handle == handle,
        id.key == derived_key(txn_hash, creation_seq),
{
    let mut buf = u128_to_be_bytes(txn_hash);
    let mut tail = u128_to_be_bytes(creation_seq);
    buf.append(&mut tail);
    let digest = sha3_256_digest(&buf);
    let key = u128_from_be_prefix(&digest);
    AggregatorID::new(handle, key)
}

} // verus!
