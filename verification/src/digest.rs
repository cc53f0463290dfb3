//! The cryptographic digest that every commitment is built on.

use crate::primitives::Bytes32;
use vstd::prelude::*;

verus! {

/// The digest of `data`: the 32 bytes that `fuel_crypto::Hasher` (SHA-256)
/// returns once it has been fed exactly these bytes.
pub uninterp spec fn sha256(data: Seq<u8>) -> Seq<u8>;

/// Calls `fuel_crypto::Hasher::hash`.
///
/// Trusted, not proved: the bytes returned are the digest of the bytes given
/// and depend on nothing else.
#[verifier::external_body]
pub(crate) fn hash_bytes(data: &[u8]) -> (digest: Bytes32)
    ensures
        digest@ == sha256(data@),
{
    Bytes32(fuel_crypto::Hasher::hash(data).into())
}

} // verus!
