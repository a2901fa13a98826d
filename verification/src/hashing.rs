use vstd::prelude::*;

verus! {

/// The 256-bit digest of a byte string, as the host's hash primitive computes
/// it. The digest depends on the input bytes alone; nothing else is assumed of
/// it, so distinct inputs are not known to give distinct digests.
pub uninterp spec fn sha256_of(input: Seq<u8>) -> Seq<u8>;

/// Relies on `anchor_lang::solana_program::hash::hash`, the SHA-256 digest of
/// the given bytes: the result is a function of the input bytes alone, and is
/// exactly 32 bytes long.
#[verifier::external_body]
pub(crate) fn sha256(input: &Vec<u8>) -> (r: [u8; 32])
    ensures
        r@ == sha256_of(input@),
{
    anchor_lang::solana_program::hash::hash(input.as_slice()).to_bytes()
}

} // verus!
