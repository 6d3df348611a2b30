//! Encryption of file chunks through a session.

use vstd::prelude::*;
use crate::crypto::aad::{Aad, AAD_VERSION_V1};
use crate::crypto::aes_gcm::TAG_LEN;
use crate::keystore::master::KillFuse;
use crate::keystore::session::{
    opened_chunk, sealed_chunk, EncryptResult, Session, SessionError, VerifyResult,
    MAX_CHUNK_SIZE,
};
use crate::memory::zeroize::{wipe_bytes, zeros};

verus! {

/// Identifier of a file.
pub type FileId = u64;

/// Identifier of a cloud.
pub type CloudId = u16;

/// The associated data of a chunk in the format version in use.
pub open spec fn chunk_aad(file_id: FileId, cloud_id: CloudId, chunk_index: u32) -> Aad {
    Aad::of(file_id, chunk_index, cloud_id)
}

/// The error a chunk encryption ends in, if any, in the order of the checks.
pub open spec fn encrypt_chunk_failure(
    killed: bool,
    key: Option<Seq<u8>>,
    plaintext_len: nat,
    out_len: nat,
) -> Option<SessionError> {
    if plaintext_len > MAX_CHUNK_SIZE {
        Some(SessionError::InvalidInput)
    } else if out_len != plaintext_len + TAG_LEN {
        Some(SessionError::OutputTooSmall)
    } else if killed {
        Some(SessionError::Killed)
    } else if key is None {
        Some(SessionError::Locked)
    } else {
        None
    }
}

/// The error a chunk decryption ends in, if any, in the order of the checks.
pub open spec fn decrypt_chunk_failure(
    killed: bool,
    key: Option<Seq<u8>>,
    ciphertext_len: nat,
    out_len: nat,
) -> Option<SessionError> {
    if ciphertext_len < TAG_LEN {
        Some(SessionError::InvalidInput)
    } else if ciphertext_len - TAG_LEN > MAX_CHUNK_SIZE {
        Some(SessionError::InvalidInput)
    } else if out_len != ciphertext_len - TAG_LEN {
        Some(SessionError::OutputTooSmall)
    } else if killed {
        Some(SessionError::Killed)
    } else if key is None {
        Some(SessionError::Locked)
    } else {
        None
    }
}

/// Encrypts chunk `chunk_index` of file `file_id` into `out` as ciphertext
/// followed by the tag. On any failure `out` is zeroed.
pub fn encrypt_chunk(
    session: &mut Session,
    fuse: &KillFuse,
    file_id: FileId,
    cloud_id: CloudId,
    chunk_index: u32,
    plaintext: &[u8],
    out: &mut [u8],
) -> (r: Result<EncryptResult, SessionError>)
    ensures
        final(session).key() == old(session).key(),
        final(out)@.len() == old(out)@.len(),
        match encrypt_chunk_failure(
            fuse.killed(),
            old(session).key(),
            plaintext@.len(),
            old(out)@.len(),
        ) {
            Some(e) => r == Err::<EncryptResult, SessionError>(e) && final(out)@ == zeros(
                old(out)@.len(),
            ),
            None => r is Ok && r->Ok_0.total_len == plaintext@.len() + TAG_LEN && final(out)@
                == sealed_chunk(
                old(session).key()->Some_0,
                chunk_aad(file_id, cloud_id, chunk_index),
                plaintext@,
            ),
        },
{
    if plaintext.len() > MAX_CHUNK_SIZE {
        wipe_bytes(out);
        return Err(SessionError::InvalidInput);
    }
    let required_len: usize = plaintext.len() + TAG_LEN;
    if out.len() != required_len {
        wipe_bytes(out);
        return Err(SessionError::OutputTooSmall);
    }
    let aad = match Aad::new(file_id, chunk_index, cloud_id, AAD_VERSION_V1) {
        Some(a) => a,
        None => {
            wipe_bytes(out);
            return Err(SessionError::InvalidInput);
        },
    };
    match session.encrypt(fuse, plaintext, aad, out) {
        Ok(r) => Ok(r),
        Err(e) => {
            wipe_bytes(out);
            Err(e)
        },
    }
}

/// Authenticates and decrypts chunk `chunk_index` of file `file_id` into
/// `out`. A chunk that does not authenticate is reported as unverified; then,
/// and on every error, `out` is zeroed. What `encrypt_chunk` produced for the
/// same session key and identifiers always verifies and decrypts to the
/// plaintext it came from.
pub fn decrypt_chunk(
    session: &mut Session,
    fuse: &KillFuse,
    file_id: FileId,
    cloud_id: CloudId,
    chunk_index: u32,
    ciphertext: &[u8],
    out: &mut [u8],
) -> (r: Result<VerifyResult, SessionError>)
    ensures
        final(session).key() == old(session).key(),
        final(out)@.len() == old(out)@.len(),
        match decrypt_chunk_failure(
            fuse.killed(),
            old(session).key(),
            ciphertext@.len(),
            old(out)@.len(),
        ) {
            Some(e) => r == Err::<VerifyResult, SessionError>(e) && final(out)@ == zeros(
                old(out)@.len(),
            ),
            None => {
                let key = old(session).key()->Some_0;
                let aad = chunk_aad(file_id, cloud_id, chunk_index);
                let opened = opened_chunk(key, aad, ciphertext@);
                &&& r is Ok
                &&& r->Ok_0.0 <==> opened is Some
                &&& r->Ok_0.0 ==> opened == Some(final(out)@)
                &&& !r->Ok_0.0 ==> final(out)@ == zeros(old(out)@.len())
                &&& forall|pt: Seq<u8>|
                    pt.len() == old(out)@.len() && #[trigger] sealed_chunk(key, aad, pt)
                        == ciphertext@ ==> r->Ok_0.0 && final(out)@ == pt
            },
        },
{
    if ciphertext.len() < TAG_LEN {
        wipe_bytes(out);
        return Err(SessionError::InvalidInput);
    }
    let ct_len: usize = ciphertext.len() - TAG_LEN;
    if ct_len > MAX_CHUNK_SIZE {
        wipe_bytes(out);
        return Err(SessionError::InvalidInput);
    }
    if out.len() != ct_len {
        wipe_bytes(out);
        return Err(SessionError::OutputTooSmall);
    }
    let aad = match Aad::new(file_id, chunk_index, cloud_id, AAD_VERSION_V1) {
        Some(a) => a,
        None => {
            wipe_bytes(out);
            return Err(SessionError::InvalidInput);
        },
    };
    match session.decrypt_verify(fuse, ciphertext, aad, out) {
        Ok(v) => Ok(v),
        Err(e) => {
            wipe_bytes(out);
            Err(e)
        },
    }
}

} // verus!
