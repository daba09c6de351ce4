//! The SHA-256 digest, computed by `solana_program`.

use vstd::prelude::*;

verus! {

/// The SHA-256 digest of a byte string, as `solana_program::hash::hash`
/// computes it. Nothing is stated about its value beyond its being a function
/// of the input bytes alone.
pub uninterp spec fn sha256(data: Seq<u8>) -> Seq<u8>;

/// Calls `solana_program::hash::hash` and takes the 32 bytes out of the
/// `Hash` it returns. Not verified: the contract claims only that the bytes
/// returned are the digest named `sha256` of the bytes passed in.
#[verifier::external_body]
pub(crate) fn sha256_digest(data: &[u8]) -> (digest: [u8; 32])
    ensures
        digest@ == sha256(data@),
{
    solana_program::hash::hash(data).to_bytes()
}

} // verus!
