//! Deterministic nonces for chunk encryption.

use vstd::prelude::*;
use ::hmac::{Hmac, Mac};
use ::sha2::Sha256;
use crate::encoding::{
    lemma_u32_be_injective, lemma_u64_be_injective, u32_be, u32_to_be_bytes, u64_be,
    u64_to_be_bytes,
};
use crate::memory::guard::GuardedKey32;

verus! {

/// Length of an AES-GCM nonce.
pub const NONCE_LEN: usize = 12;

/// The HMAC-SHA256 tag (RFC 2104) of a message under a key.
pub uninterp spec fn hmac_sha256(key: Seq<u8>, message: Seq<u8>) -> Seq<u8>;

/// `Hmac::<Sha256>::new_from_slice`, one `update` and `finalize` of the
/// `hmac` crate: the 32-byte tag of the message. HMAC takes a key of any
/// length, so making the instance cannot fail.
#[verifier::external_body]
pub(crate) fn hmac_sha256_tag(key: &[u8], message: &[u8]) -> (tag: [u8; 32])
    ensures
        tag@ == hmac_sha256(key@, message@),
{
    let mut mac = <Hmac<Sha256> as Mac>::new_from_slice(key).expect("any key length");
    mac.update(message);
    mac.finalize().into_bytes().into()
}

/// The domain-separation label of chunk nonces, `rcxcloud:file:nonce:v1`.
pub open spec fn nonce_label() -> Seq<u8> {
    seq![
        0x72u8, 0x63u8, 0x78u8, 0x63u8, 0x6cu8, 0x6fu8, 0x75u8, 0x64u8,
        0x3au8, 0x66u8, 0x69u8, 0x6cu8, 0x65u8, 0x3au8, 0x6eu8, 0x6fu8,
        0x6eu8, 0x63u8, 0x65u8, 0x3au8, 0x76u8, 0x31u8,
    ]
}

/// What is authenticated to obtain a nonce: the label, then the file id and
/// the chunk index, both big-endian.
pub open spec fn nonce_message(file_id: u64, chunk: u32) -> Seq<u8> {
    nonce_label() + u64_be(file_id) + u32_be(chunk)
}

/// The nonce of a chunk: the first 96 bits of the HMAC of its message.
pub open spec fn derived_nonce(key: Seq<u8>, file_id: u64, chunk: u32) -> Seq<u8> {
    hmac_sha256(key, nonce_message(file_id, chunk)).subrange(0, NONCE_LEN as int)
}

/// Distinct pairs of file id and chunk index are authenticated as distinct
/// messages.
pub proof fn lemma_nonce_message_injective(f1: u64, c1: u32, f2: u64, c2: u32)
    requires
        nonce_message(f1, c1) == nonce_message(f2, c2),
    ensures
        f1 == f2,
        c1 == c2,
{
    let a = nonce_message(f1, c1);
    let b = nonce_message(f2, c2);
    assert(u64_be(f1) =~= a.subrange(22, 30));
    assert(u64_be(f2) =~= b.subrange(22, 30));
    assert(u32_be(c1) =~= a.subrange(30, 34));
    assert(u32_be(c2) =~= b.subrange(30, 34));
    lemma_u64_be_injective(f1, f2);
    lemma_u32_be_injective(c1, c2);
}

/// Derives the nonce of chunk `chunk` of file `file_id` under the per-file
/// key `key`.
pub fn derive_nonce(key: &GuardedKey32, file_id: u64, chunk: u32) -> (nonce: [u8; 12])
    ensures
        nonce@ == derived_nonce(key@, file_id, chunk),
{
    let mut message: Vec<u8> = vec![
        0x72u8, 0x63u8, 0x78u8, 0x63u8, 0x6cu8, 0x6fu8, 0x75u8, 0x64u8,
        0x3au8, 0x66u8, 0x69u8, 0x6cu8, 0x65u8, 0x3au8, 0x6eu8, 0x6fu8,
        0x6eu8, 0x63u8, 0x65u8, 0x3au8, 0x76u8, 0x31u8,
    ];
    assert(message@ =~= nonce_label());
    let id = u64_to_be_bytes(file_id);
    let ch = u32_to_be_bytes(chunk);
    message.extend_from_slice(&id);
    message.extend_from_slice(&ch);
    assert(message@ =~= nonce_message(file_id, chunk));
    let digest = hmac_sha256_tag(key.borrow(), message.as_slice());
    let mut nonce = [0u8; 12];
    let mut i: usize = 0;
    while i < 12
        invariant
            i <= 12,
            digest@ == hmac_sha256(key@, nonce_message(file_id, chunk)),
            forall|j: int| 0 <= j < i ==> nonce@[j] == digest@[j],
        decreases 12 - i,
    {
        nonce[i] = digest[i];
        i += 1;
    }
    assert(nonce@ =~= digest@.subrange(0, 12));
    nonce
}

} // verus!
