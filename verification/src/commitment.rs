use vstd::prelude::*;
use vstd::bytes::spec_u64_to_le_bytes;
use vstd::bytes::u64_to_le_bytes;
use crate::hashing::sha256;
use crate::hashing::sha256_of;
use crate::util::append_bytes;
use crate::util::append_bytes32;
use crate::util::bytes32_eq;

verus! {

/// A deposited commitment: one record per unique commitment hash. The record
/// is created by a private deposit and its `spent` flag flips exactly once,
/// on the matching private withdrawal.
#[derive(Clone, Copy, Debug)]
pub struct CommitmentPDA {
    /// The commitment hash, the record's key.
    pub commitment: [u8; 32],
    /// The amount deposited under this commitment.
    pub amount: u64,
    /// When the deposit was made.
    pub timestamp: i64,
    /// Whether the matching withdrawal has already spent this record.
    pub spent: bool,
}

/// A used nullifier: the record's existence is itself the double-spend guard.
/// It is created at the first successful withdrawal naming the nullifier and
/// never changes afterward.
#[derive(Clone, Copy, Debug)]
pub struct NullifierPDA {
    /// The nullifier hash, the record's key.
    pub nullifier: [u8; 32],
    /// When the nullifier was first used.
    pub used_at: i64,
}

/// The exact byte string that a commitment is a digest of: the 32-byte secret
/// hash, the 32-byte nullifier, and the amount as 8 little-endian bytes, with
/// no padding or length prefix.
pub open spec fn commitment_preimage(secret_hash: Seq<u8>, nullifier: Seq<u8>, amount: u64) -> Seq<u8> {
    secret_hash + nullifier + spec_u64_to_le_bytes(amount)
}

/// The commitment bound to `(secret_hash, nullifier, amount)`: the digest of
/// their concatenation. The withdrawal recipient is deliberately not part of
/// the preimage, so funds can move to a destination chosen at withdrawal time.
pub open spec fn spec_commitment(secret_hash: Seq<u8>, nullifier: Seq<u8>, amount: u64) -> Seq<u8> {
    sha256_of(commitment_preimage(secret_hash, nullifier, amount))
}

/// Computes the commitment digest for `(secret_hash, nullifier, amount)`.
pub fn compute_commitment(secret_hash: &[u8; 32], nullifier: &[u8; 32], amount: u64) -> (r: [u8; 32])
    ensures
        r@ == spec_commitment(secret_hash@, nullifier@, amount),
{
    let mut preimage: Vec<u8> = Vec::new();
    append_bytes32(&mut preimage, secret_hash);
    append_bytes32(&mut preimage, nullifier);
    let amount_bytes = u64_to_le_bytes(amount);
    append_bytes(&mut preimage, &amount_bytes);
    proof {
        assert(preimage@ =~= commitment_preimage(secret_hash@, nullifier@, amount));
    }
    sha256(&preimage)
}

/// Whether a stored commitment is exactly the one bound to the revealed
/// parts; this is what a successful verification asserts.
pub open spec fn commitment_verifies(stored: Seq<u8>, secret_hash: Seq<u8>, nullifier: Seq<u8>, amount: u64) -> bool {
    stored == spec_commitment(secret_hash, nullifier, amount)
}

/// Recomputes the commitment from the revealed parts and compares it with the
/// stored one. The answer says only whether the whole preimage matches, never
/// which part differed.
pub fn verify_commitment(stored: &[u8; 32], secret_hash: &[u8; 32], nullifier: &[u8; 32], amount: u64) -> (r: bool)
    ensures
        r == commitment_verifies(stored@, secret_hash@, nullifier@, amount),
{
    let computed = compute_commitment(secret_hash, nullifier, amount);
    bytes32_eq(stored, &computed)
}

/// Round trip: a commitment computed from `(secret_hash, nullifier, amount)`
/// always passes verification against those same three parts. (That altering
/// a part flips the answer is a property of the hash's collision resistance,
/// which nothing here assumes.)
pub proof fn lemma_commitment_round_trip(secret_hash: Seq<u8>, nullifier: Seq<u8>, amount: u64)
    ensures
        commitment_verifies(spec_commitment(secret_hash, nullifier, amount), secret_hash, nullifier, amount),
{
}

} // verus!
