//! The 256-bit Keccak hash.

use tiny_keccak::{Hasher, Keccak};
use vstd::prelude::*;

verus! {

/// The 256-bit Keccak digest of `data`, as the hasher of `tiny_keccak`
/// computes it.
pub uninterp spec fn keccak256_digest(data: Seq<u8>) -> Seq<u8>;

/// Feeds `data` to a fresh `tiny_keccak::Keccak::v256` hasher with `update`
/// and takes the 32 bytes that `finalize` writes.
#[verifier::external_body]
pub(crate) fn keccak256(data: &[u8]) -> (digest: [u8; 32])
    ensures
        digest@ == keccak256_digest(data@),
{
    let mut hasher = Keccak::v256();
    hasher.update(data);
    let mut digest = [0u8; 32];
    hasher.finalize(&mut digest);
    digest
}

} // verus!
