//! Derivation of a round's outcome from its entropy sources. The outcome is
//! a deterministic function of the round's id, the host's slot and the
//! round's escrow balance: whoever foresees these foresees the outcome.

use vstd::prelude::*;
use vstd::bytes::{spec_u64_to_le_bytes, u64_to_le_bytes};

verus! {

/// The SHA-256 digest of a byte string, as its 32 bytes.
pub uninterp spec fn sha256_digest(data: Seq<u8>) -> Seq<u8>;

/// Calls `anchor_lang::solana_program::hash::hash` and hands back the bytes
/// of the digest. Trusted: the digest depends on the input bytes alone, so it
/// goes by the name `sha256_digest`. Nothing is claimed of its value.
#[verifier::external_body]
fn sha256(data: &[u8]) -> (digest: [u8; 32])
    ensures
        digest@ == sha256_digest(data@),
{
    anchor_lang::solana_program::hash::hash(data).to_bytes()
}

/// The 24 bytes that are hashed: the round's id, the slot and the escrow
/// balance, each as eight little-endian bytes, in this order.
pub open spec fn entropy_bytes(round_id: u64, slot: u64, balance: u64) -> Seq<u8> {
    spec_u64_to_le_bytes(round_id) + spec_u64_to_le_bytes(slot) + spec_u64_to_le_bytes(balance)
}

/// The side that a digest selects: the low-order bit of its first byte, zero
/// for heads and one for tails.
pub open spec fn side_of_digest(digest: Seq<u8>) -> u8
    recommends
        digest.len() > 0,
{
    digest[0] % 2
}

/// The side that wins a round with these entropy sources.
pub open spec fn outcome_of(round_id: u64, slot: u64, balance: u64) -> u8 {
    side_of_digest(sha256_digest(entropy_bytes(round_id, slot, balance)))
}

/// Lays out the entropy sources as the bytes to hash.
pub fn entropy_input(round_id: u64, slot: u64, balance: u64) -> (buf: Vec<u8>)
    ensures
        buf@ == entropy_bytes(round_id, slot, balance),
        buf@.len() == 24,
{
    proof {
        vstd::bytes::lemma_auto_spec_u64_to_from_le_bytes();
    }
    let mut buf = u64_to_le_bytes(round_id);
    let mut slot_bytes = u64_to_le_bytes(slot);
    let mut balance_bytes = u64_to_le_bytes(balance);
    buf.append(&mut slot_bytes);
    buf.append(&mut balance_bytes);
    buf
}

/// Selects the winning side from a digest.
pub fn winning_side_from_digest(digest: &[u8; 32]) -> (side: u8)
    ensures
        side == side_of_digest(digest@),
        side == 0 || side == 1,
{
    digest[0] % 2
}

/// Hashes the entropy sources and selects the winning side.
pub fn derive_outcome(round_id: u64, slot: u64, balance: u64) -> (side: u8)
    ensures
        side == outcome_of(round_id, slot, balance),
        side == 0 || side == 1,
{
    let input = entropy_input(round_id, slot, balance);
    let digest = sha256(input.as_slice());
    winning_side_from_digest(&digest)
}

} // verus!
