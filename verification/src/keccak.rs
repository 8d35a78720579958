//! The Keccak-256 digest, computed by the `sha3` crate.
use sha3::{Digest, Keccak256};
use vstd::prelude::*;

verus! {

/// The Keccak-256 digest of a byte string (Keccak padding, as used by
/// Ethereum, not the standardised SHA3-256).
pub uninterp spec fn keccak256_digest(data: Seq<u8>) -> Seq<u8>;

/// Calls `sha3::Keccak256::digest` on `data` and returns its 32 bytes.
/// The contract claims only that the result is the Keccak-256 digest of the
/// bytes handed in: a function of those bytes alone. The digest's value is
/// not stated.
#[verifier::external_body]
pub(crate) fn keccak256(data: &[u8]) -> (digest: [u8; 32])
    ensures
        digest@ == keccak256_digest(data@),
{
    Keccak256::digest(data).into()
}

} // verus!
