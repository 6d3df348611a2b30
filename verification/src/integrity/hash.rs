//! SHA-256 digests of non-secret data.

use vstd::prelude::*;
use ::sha2::{Digest, Sha256};

verus! {

/// The SHA-256 digest (FIPS 180-4) of a byte string.
pub uninterp spec fn sha256(data: Seq<u8>) -> Seq<u8>;

/// `Sha256::new`, one `update` and `finalize` of the `sha2` crate: the
/// 32-byte digest of the data.
#[verifier::external_body]
fn sha256_digest(data: &[u8]) -> (digest: [u8; 32])
    ensures
        digest@ == sha256(data@),
{
    let mut hasher = Sha256::new();
    hasher.update(data);
    hasher.finalize().into()
}

/// A SHA-256 digest.
#[derive(Clone, Copy)]
pub struct HashOutput(pub [u8; 32]);

impl HashOutput {
    /// The digest bytes.
    pub open spec fn view(&self) -> Seq<u8> {
        self.0@
    }

    /// The digest bytes.
    pub fn as_ref(&self) -> (r: &[u8; 32])
        ensures
            r@ == self@,
    {
        &self.0
    }
}

/// Hashes `data` with SHA-256.
pub fn hash_sha256(data: &[u8]) -> (r: HashOutput)
    ensures
        r@ == sha256(data@),
{
    HashOutput(sha256_digest(data))
}

} // verus!
