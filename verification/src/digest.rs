//! The Keccak-256 digest, computed by `alloy_primitives`.

use crate::primitives::Hash256;
use vstd::prelude::*;

verus! {

/// The Keccak-256 digest of a byte string.
pub uninterp spec fn keccak256_digest(bytes: Seq<u8>) -> Seq<u8>;

/// Calls `alloy_primitives::keccak256`. The contract only gives the digest its
/// name: the same bytes always have the same digest, and nothing else is claimed
/// of it.
#[verifier::external_body]
pub(crate) fn keccak256(bytes: &[u8]) -> (digest: Hash256)
    ensures
        digest@ == keccak256_digest(bytes@),
{
    Hash256 { bytes: alloy_primitives::keccak256(bytes).0 }
}

} // verus!
