//! The chain's hash function.

use vstd::prelude::*;
use crate::primitives::H256;

verus! {

/// The Keccak-256 digest of a byte string.
pub uninterp spec fn keccak256_digest(bytes: Seq<u8>) -> Seq<u8>;

/// Calls `keccak256` of the ethers crate, which feeds the bytes to a
/// Keccak-256 hasher and returns the 32-byte digest. The digest depends on
/// the bytes alone.
#[verifier::external_body]
pub(crate) fn keccak256(bytes: &[u8]) -> (digest: H256)
    ensures
        digest@ == keccak256_digest(bytes@),
{
    H256 { bytes: ethers::utils::keccak256(bytes) }
}

} // verus!
