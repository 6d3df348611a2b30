//! The active session: per-file key derivation and chunk encryption.

use vstd::prelude::*;
use crate::crypto::aad::{Aad, AAD_VERSION_V1};
use crate::crypto::aes_gcm::{aes256_gcm_open, aes256_gcm_seal, open, seal, TAG_LEN};
use crate::crypto::derive::{derive_key, derived_key, Purpose};
use crate::crypto::nonce::{derive_nonce, derived_nonce};
use crate::keystore::master::KillFuse;
use crate::memory::guard::GuardedKey32;
use crate::memory::zeroize::{wipe_bytes, zeros};

verus! {

/// Largest chunk, plaintext or ciphertext without its tag, that a session
/// works on: 4 MiB.
pub const MAX_CHUNK_SIZE: usize = 4194304;

/// Seals the kinds of value a session operation can return.
pub trait Sealed {
}

/// A value that a session operation returns.
pub trait SessionOutput: Sealed {
}

/// Outcome of an encryption.
#[derive(Clone, Copy)]
pub struct EncryptResult {
    /// Number of bytes written: the ciphertext and its tag.
    pub total_len: usize,
}

impl Sealed for EncryptResult {
}

impl SessionOutput for EncryptResult {
}

/// Outcome of a decryption: whether the input authenticated.
#[derive(Clone, Copy, PartialEq, Eq, Structural)]
pub struct VerifyResult(pub bool);

impl Sealed for VerifyResult {
}

impl SessionOutput for VerifyResult {
}

/// Why a session operation failed.
#[derive(Clone, Copy, PartialEq, Eq, Debug, Structural)]
pub enum SessionError {
    /// The kill fuse is blown.
    Killed,
    /// The session holds no key any more.
    Locked,
    /// A size or a version is not acceptable.
    InvalidInput,
    /// The output buffer does not have the required length.
    OutputTooSmall,
    /// A primitive failed.
    CryptoFailure,
}

/// The key under which the chunks of a file are encrypted.
pub open spec fn file_key(session_key: Seq<u8>, file_id: u64) -> Seq<u8> {
    derived_key(session_key, Purpose::FileEncryption, file_id)
}

/// The nonce of a chunk, derived from the key of its file.
pub open spec fn chunk_nonce(session_key: Seq<u8>, aad: Aad) -> Seq<u8> {
    derived_nonce(
        file_key(session_key, aad.spec_file_id()),
        aad.spec_file_id(),
        aad.spec_chunk(),
    )
}

/// The ciphertext and tag of a chunk under a session key.
pub open spec fn sealed_chunk(session_key: Seq<u8>, aad: Aad, plaintext: Seq<u8>) -> Seq<u8> {
    aes256_gcm_seal(
        file_key(session_key, aad.spec_file_id()),
        chunk_nonce(session_key, aad),
        plaintext,
        aad.wire(),
    )
}

/// The plaintext of a sealed chunk under a session key, if it authenticates.
pub open spec fn opened_chunk(session_key: Seq<u8>, aad: Aad, input: Seq<u8>) -> Option<Seq<u8>> {
    aes256_gcm_open(
        file_key(session_key, aad.spec_file_id()),
        chunk_nonce(session_key, aad),
        input,
        aad.wire(),
    )
}

/// The error an encryption ends in, if any, in the order of the checks.
pub open spec fn encrypt_failure(
    killed: bool,
    key: Option<Seq<u8>>,
    aad: Aad,
    plaintext_len: nat,
    out_len: nat,
) -> Option<SessionError> {
    if killed {
        Some(SessionError::Killed)
    } else if key is None {
        Some(SessionError::Locked)
    } else if !aad.is_valid() {
        Some(SessionError::InvalidInput)
    } else if plaintext_len > MAX_CHUNK_SIZE {
        Some(SessionError::InvalidInput)
    } else if out_len != plaintext_len + TAG_LEN {
        Some(SessionError::OutputTooSmall)
    } else {
        None
    }
}

/// The error a decryption ends in, if any, in the order of the checks. A
/// failed authentication is no error.
pub open spec fn decrypt_failure(
    killed: bool,
    key: Option<Seq<u8>>,
    aad: Aad,
    input_len: nat,
    out_len: nat,
) -> Option<SessionError> {
    if killed {
        Some(SessionError::Killed)
    } else if key is None {
        Some(SessionError::Locked)
    } else if !aad.is_valid() {
        Some(SessionError::InvalidInput)
    } else if input_len < TAG_LEN {
        Some(SessionError::InvalidInput)
    } else if input_len - TAG_LEN > MAX_CHUNK_SIZE {
        Some(SessionError::InvalidInput)
    } else if out_len != input_len - TAG_LEN {
        Some(SessionError::OutputTooSmall)
    } else {
        None
    }
}

/// An encryption context that owns exactly one session key until it is
/// killed.
pub struct Session {
    session_key: Option<GuardedKey32>,
}

impl Session {
    /// The session key, while the session holds one.
    pub closed spec fn key(&self) -> Option<Seq<u8>> {
        match self.session_key {
            Some(k) => Some(k@),
            None => None,
        }
    }

    /// A session that owns `session_key`.
    pub fn new(session_key: GuardedKey32) -> (r: Self)
        ensures
            r.key() == Some(session_key@),
    {
        Session { session_key: Some(session_key) }
    }

    /// The session key, unless the fuse is blown or the key is gone.
    pub fn require_alive(&self, fuse: &KillFuse) -> (r: Result<&GuardedKey32, SessionError>)
        ensures
            fuse.killed() ==> r == Err::<&GuardedKey32, SessionError>(SessionError::Killed),
            !fuse.killed() && self.key() is None ==> r == Err::<&GuardedKey32, SessionError>(
                SessionError::Locked,
            ),
            !fuse.killed() && self.key() is Some ==> r is Ok,
            r matches Ok(k) ==> self.key() == Some(k@),
    {
        if fuse.is_killed() {
            return Err(SessionError::Killed);
        }
        match &self.session_key {
            Some(k) => Ok(k),
            None => Err(SessionError::Locked),
        }
    }

    /// Encrypts one chunk into `out` as ciphertext followed by the tag, under
    /// the key of the chunk's file and the chunk's derived nonce, with the
    /// serialized `aad` as associated data. `out` must be exactly sixteen
    /// bytes longer than the plaintext. On any failure `out` is zeroed.
    pub fn encrypt(
        &mut self,
        fuse: &KillFuse,
        plaintext: &[u8],
        aad: Aad,
        out: &mut [u8],
    ) -> (r: Result<EncryptResult, SessionError>)
        ensures
            final(self).key() == old(self).key(),
            final(out)@.len() == old(out)@.len(),
            match encrypt_failure(
                fuse.killed(),
                old(self).key(),
                aad,
                plaintext@.len(),
                old(out)@.len(),
            ) {
                Some(e) => r == Err::<EncryptResult, SessionError>(e) && final(out)@ == zeros(
                    old(out)@.len(),
                ),
                None => r is Ok && r->Ok_0.total_len == plaintext@.len() + TAG_LEN && final(out)@
                    == sealed_chunk(old(self).key()->Some_0, aad, plaintext@),
            },
    {
        let session_key = match self.require_alive(fuse) {
            Ok(k) => k,
            Err(e) => {
                wipe_bytes(out);
                return Err(e);
            },
        };
        if aad.version() != AAD_VERSION_V1 {
            wipe_bytes(out);
            return Err(SessionError::InvalidInput);
        }
        let n: usize = plaintext.len();
        if n > MAX_CHUNK_SIZE {
            wipe_bytes(out);
            return Err(SessionError::InvalidInput);
        }
        let required: usize = n + TAG_LEN;
        if out.len() != required {
            wipe_bytes(out);
            return Err(SessionError::OutputTooSmall);
        }
        let mut enc_key = GuardedKey32::zeroed();
        match derive_key(session_key, Purpose::FileEncryption, aad.file_id(), &mut enc_key) {
            Ok(()) => {},
            Err(()) => {
                wipe_bytes(out);
                return Err(SessionError::CryptoFailure);
            },
        }
        let nonce = derive_nonce(&enc_key, aad.file_id(), aad.chunk());
        let wire = aad.serialize();
        match seal(&enc_key, &nonce, plaintext, &wire, out) {
            Ok(()) => Ok(EncryptResult { total_len: required }),
            Err(()) => {
                wipe_bytes(out);
                Err(SessionError::CryptoFailure)
            },
        }
    }

    /// Authenticates and decrypts one chunk, ciphertext followed by the tag,
    /// into `out`, which must be exactly sixteen bytes shorter. A chunk that
    /// does not authenticate is reported as unverified, with `out` zeroed;
    /// `out` is zeroed on every error too. What `encrypt` produced for the
    /// same session key and associated data always verifies and decrypts to
    /// the plaintext it came from.
    pub fn decrypt_verify(
        &mut self,
        fuse: &KillFuse,
        input: &[u8],
        aad: Aad,
        out: &mut [u8],
    ) -> (r: Result<VerifyResult, SessionError>)
        ensures
            final(self).key() == old(self).key(),
            final(out)@.len() == old(out)@.len(),
            match decrypt_failure(
                fuse.killed(),
                old(self).key(),
                aad,
                input@.len(),
                old(out)@.len(),
            ) {
                Some(e) => r == Err::<VerifyResult, SessionError>(e) && final(out)@ == zeros(
                    old(out)@.len(),
                ),
                None => {
                    let opened = opened_chunk(old(self).key()->Some_0, aad, input@);
                    &&& r is Ok
                    &&& r->Ok_0.0 <==> opened is Some
                    &&& r->Ok_0.0 ==> opened == Some(final(out)@)
                    &&& !r->Ok_0.0 ==> final(out)@ == zeros(old(out)@.len())
                    &&& forall|pt: Seq<u8>|
                        pt.len() == old(out)@.len() && #[trigger] sealed_chunk(
                            old(self).key()->Some_0,
                            aad,
                            pt,
                        ) == input@ ==> r->Ok_0.0 && final(out)@ == pt
                },
            },
    {
        let session_key = match self.require_alive(fuse) {
            Ok(k) => k,
            Err(e) => {
                wipe_bytes(out);
                return Err(e);
            },
        };
        if aad.version() != AAD_VERSION_V1 {
            wipe_bytes(out);
            return Err(SessionError::InvalidInput);
        }
        if input.len() < TAG_LEN {
            wipe_bytes(out);
            return Err(SessionError::InvalidInput);
        }
        let ct_len: usize = input.len() - TAG_LEN;
        if ct_len > MAX_CHUNK_SIZE {
            wipe_bytes(out);
            return Err(SessionError::InvalidInput);
        }
        if out.len() != ct_len {
            wipe_bytes(out);
            return Err(SessionError::OutputTooSmall);
        }
        let mut enc_key = GuardedKey32::zeroed();
        match derive_key(session_key, Purpose::FileEncryption, aad.file_id(), &mut enc_key) {
            Ok(()) => {},
            Err(()) => {
                wipe_bytes(out);
                return Err(SessionError::CryptoFailure);
            },
        }
        let nonce = derive_nonce(&enc_key, aad.file_id(), aad.chunk());
        let wire = aad.serialize();
        let ok = open(&enc_key, &nonce, input, &wire, out);
        if !ok {
            wipe_bytes(out);
        }
        Ok(VerifyResult(ok))
    }

    /// Drops the session key, which zeroes it.
    pub fn kill(&mut self)
        ensures
            final(self).key() is None,
    {
        let _ = self.session_key.take();
    }
}

} // verus!
