//! Binding of a revealed secret to a previously stored commitment.

use vstd::prelude::*;

verus! {

/// The Keccak-256 digest of a byte sequence.
pub uninterp spec fn keccak_of(data: Seq<u8>) -> Seq<u8>;

/// Relies on `solana_program::keccak::hash` (re-exported by anchor_lang):
/// the 32-byte Keccak-256 digest of its input, a function of the input alone.
#[verifier::external_body]
pub(crate) fn keccak256(data: &[u8; 32]) -> (r: [u8; 32])
    ensures
        r@ == keccak_of(data@),
{
    anchor_lang::solana_program::keccak::hash(data).to_bytes()
}

/// Whether `digest`, the digest of a revealed secret, equals the stored commitment.
pub fn digest_matches(commitment: &[u8; 32], digest: &[u8; 32]) -> (r: bool)
    ensures
        r == (digest@ == commitment@),
{
    let r = crate::bytes::bytes_eq(digest, commitment);
    proof {
        if digest@ == commitment@ {
            assert(*digest =~= *commitment);
        }
    }
    r
}

/// Hashes `secret` and compares the digest with `commitment`.
pub fn verify_commitment(commitment: &[u8; 32], secret: &[u8; 32]) -> (r: bool)
    ensures
        r == (keccak_of(secret@) == commitment@),
{
    let digest = keccak256(secret);
    digest_matches(commitment, &digest)
}

} // verus!
