//! SHA-256, as computed by the `ethereum_hashing` crate.

use crate::types::{Hash256, ZERO_HASH};
use vstd::prelude::*;

verus! {

/// The SHA-256 digest of `data`.
pub uninterp spec fn sha256(data: Seq<u8>) -> Seq<u8>;

/// Calls `ethereum_hashing::hash`, which returns the SHA-256 digest of its input,
/// computed by whichever implementation suits the processor; a digest has 32 bytes
/// (the crate's `HASH_LEN`).
#[verifier::external_body]
fn sha256_digest(input: &[u8]) -> (digest: Vec<u8>)
    ensures
        digest@ == sha256(input@),
        digest@.len() == 32,
{
    ethereum_hashing::hash(input)
}

/// The SHA-256 digest of `input` as a hash value.
pub fn hash(input: &[u8]) -> (digest: Hash256)
    ensures
        digest@ == sha256(input@),
{
    let bytes = sha256_digest(input);
    let mut digest: Hash256 = ZERO_HASH;
    let mut i: usize = 0;
    while i < 32
        invariant
            i <= 32,
            bytes@.len() == 32,
            forall|j: int| 0 <= j < i ==> digest@[j] == bytes@[j],
        decreases 32 - i,
    {
        digest[i] = bytes[i];
        i += 1;
    }
    assert(digest@ =~= bytes@);
    digest
}

} // verus!
