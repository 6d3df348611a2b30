//! The core behind the bridge: one keystore under one kill fuse.

use vstd::prelude::*;
use crate::crypto::aes_gcm::TAG_LEN;
use crate::crypto::file::{
    chunk_aad, decrypt_chunk, decrypt_chunk_failure, encrypt_chunk, encrypt_chunk_failure,
    CloudId, FileId,
};
use crate::device::registry::DeviceRegistry;
use crate::keystore::master::KillFuse;
use crate::keystore::recovery::{
    recover_from_phrase, recovered_session_key, recovery_failure, RecoveryConfig,
};
use crate::keystore::session::{
    opened_chunk, sealed_chunk, EncryptResult, SessionError, VerifyResult,
};
use crate::keystore::{KeyStore, KeyStoreError};
use crate::kill::executor::{execute_kill, KillError};
use crate::kill::replay::{commit_accepts, committed, ReplayToken};
use crate::logging::encrypted::{LogFile, LogRoot};
use crate::memory::zeroize::{zeros, Secret};

verus! {

/// Why the core refused.
#[derive(Debug, Clone, Copy, PartialEq, Eq, Structural)]
pub enum CoreError {
    /// No session is active.
    Locked,
    /// The core is killed.
    Killed,
    /// A size, a version or an encoding is not acceptable.
    InvalidInput,
    /// A primitive failed.
    CryptoFailure,
    /// The recovery phrase did not yield an authority.
    IntegrityFailure,
    /// A session is active already.
    Denied,
}

/// The core error that stands for a session error.
pub open spec fn core_error_of_session(err: SessionError) -> CoreError {
    match err {
        SessionError::Killed => CoreError::Killed,
        SessionError::Locked => CoreError::Locked,
        SessionError::InvalidInput => CoreError::InvalidInput,
        SessionError::OutputTooSmall => CoreError::InvalidInput,
        SessionError::CryptoFailure => CoreError::CryptoFailure,
    }
}

/// The core error that stands for a keystore error. A poisoned lock counts
/// as killed.
pub open spec fn core_error_of_keystore(err: KeyStoreError) -> CoreError {
    match err {
        KeyStoreError::Locked => CoreError::Locked,
        KeyStoreError::Killed => CoreError::Killed,
        KeyStoreError::Poisoned => CoreError::Killed,
        KeyStoreError::AlreadyUnlocked => CoreError::Denied,
        KeyStoreError::Session(se) => core_error_of_session(se),
    }
}

/// Maps a keystore error to a core error.
pub fn map_keystore_error(err: KeyStoreError) -> (r: CoreError)
    ensures
        r == core_error_of_keystore(err),
{
    match err {
        KeyStoreError::Locked => CoreError::Locked,
        KeyStoreError::Killed => CoreError::Killed,
        KeyStoreError::Poisoned => CoreError::Killed,
        KeyStoreError::AlreadyUnlocked => CoreError::Denied,
        KeyStoreError::Session(se) => map_session_error(se),
    }
}

/// Maps a session error to a core error.
pub fn map_session_error(err: SessionError) -> (r: CoreError)
    ensures
        r == core_error_of_session(err),
{
    match err {
        SessionError::Killed => CoreError::Killed,
        SessionError::Locked => CoreError::Locked,
        SessionError::InvalidInput => CoreError::InvalidInput,
        SessionError::OutputTooSmall => CoreError::InvalidInput,
        SessionError::CryptoFailure => CoreError::CryptoFailure,
    }
}

/// The core: it owns the kill fuse and the one keystore.
pub struct Core {
    keystore: KeyStore,
    fuse: KillFuse,
}

impl Core {
    /// The kill fuse is blown.
    pub closed spec fn killed(&self) -> bool {
        self.fuse.killed()
    }

    /// A session is active.
    pub closed spec fn unlocked(&self) -> bool {
        self.keystore.state() is Active
    }

    /// The key of the active session, if there is one that holds a key.
    pub closed spec fn session_key(&self) -> Option<Seq<u8>> {
        self.keystore.session_key()
    }

    /// A locked core under an intact fuse.
    pub fn new() -> (r: Self)
        ensures
            !r.killed(),
            !r.unlocked(),
    {
        Core { keystore: KeyStore::new(), fuse: KillFuse::new() }
    }

    /// Refuses once the fuse is blown.
    pub fn require_alive(&self) -> (r: Result<(), CoreError>)
        ensures
            self.killed() ==> r == Err::<(), CoreError>(CoreError::Killed),
            !self.killed() ==> r is Ok,
    {
        if self.fuse.is_killed() {
            Err(CoreError::Killed)
        } else {
            Ok(())
        }
    }

    /// Unlocks the core with a recovery phrase. A killed core reports
    /// `Killed`; a phrase that yields no authority reports
    /// `IntegrityFailure`; a core that is unlocked already reports `Denied`.
    /// On every error the core is left as it was.
    pub fn unlock_with_phrase(&mut self, phrase: Vec<u8>) -> (r: Result<(), CoreError>)
        ensures
            final(self).killed() == old(self).killed(),
            old(self).killed() ==> r == Err::<(), CoreError>(CoreError::Killed),
            !old(self).killed()
                && recovery_failure(phrase@.len(), RecoveryConfig::spec_default().kdf)
                is Some ==> r == Err::<(), CoreError>(CoreError::IntegrityFailure),
            !old(self).killed()
                && recovery_failure(phrase@.len(), RecoveryConfig::spec_default().kdf)
                is None && old(self).unlocked() ==> r == Err::<(), CoreError>(CoreError::Denied),
            !old(self).killed()
                && recovery_failure(phrase@.len(), RecoveryConfig::spec_default().kdf)
                is None && !old(self).unlocked() ==> r is Ok,
            r is Ok ==> final(self).unlocked() && final(self).session_key() == Some(
                recovered_session_key(phrase@, RecoveryConfig::spec_default().kdf),
            ),
            r is Err ==> final(self).unlocked() == old(self).unlocked()
                && final(self).session_key() == old(self).session_key(),
    {
        match self.require_alive() {
            Ok(()) => {},
            Err(e) => {
                return Err(e);
            },
        }
        let phrase = Secret::new(phrase);
        let cfg = RecoveryConfig::default();
        let auth = match recover_from_phrase(phrase, &cfg) {
            Ok(a) => a,
            Err(_) => {
                return Err(CoreError::IntegrityFailure);
            },
        };
        match self.keystore.unlock(&self.fuse, auth) {
            Ok(()) => Ok(()),
            Err(e) => Err(map_keystore_error(e)),
        }
    }

    /// Ends the active session. Nothing happens on a killed core.
    pub fn lock(&mut self)
        ensures
            final(self).killed() == old(self).killed(),
            !old(self).killed() ==> !final(self).unlocked(),
            old(self).killed() ==> final(self).unlocked() == old(self).unlocked(),
    {
        self.keystore.lock(&self.fuse);
    }

    /// Whether the core is killed.
    pub fn is_killed(&self) -> (r: bool)
        ensures
            r == self.killed(),
    {
        self.fuse.is_killed()
    }

    /// The error a chunk operation of the core ends in before the session is
    /// reached, if any.
    pub open spec fn access_failure(&self) -> Option<CoreError> {
        if self.killed() {
            Some(CoreError::Killed)
        } else if !self.unlocked() {
            Some(CoreError::Locked)
        } else {
            None
        }
    }

    /// The error a chunk encryption of the core ends in, if any.
    pub open spec fn encrypt_failure(&self, plaintext_len: nat, out_len: nat) -> Option<
        CoreError,
    > {
        match self.access_failure() {
            Some(e) => Some(e),
            None => match encrypt_chunk_failure(
                false,
                self.session_key(),
                plaintext_len,
                out_len,
            ) {
                Some(e) => Some(core_error_of_session(e)),
                None => None,
            },
        }
    }

    /// The error a chunk decryption of the core ends in, if any.
    pub open spec fn decrypt_failure(&self, ciphertext_len: nat, out_len: nat) -> Option<
        CoreError,
    > {
        match self.access_failure() {
            Some(e) => Some(e),
            None => match decrypt_chunk_failure(
                false,
                self.session_key(),
                ciphertext_len,
                out_len,
            ) {
                Some(e) => Some(core_error_of_session(e)),
                None => None,
            },
        }
    }

    /// Encrypts a file chunk into `out` as ciphertext followed by the tag.
    /// A killed or locked core refuses and leaves `out` alone; every later
    /// failure zeroes `out`.
    pub fn encrypt_chunk(
        &mut self,
        file_id: FileId,
        cloud_id: CloudId,
        chunk: u32,
        plaintext: &[u8],
        out: &mut [u8],
    ) -> (r: Result<EncryptResult, CoreError>)
        ensures
            final(self).killed() == old(self).killed(),
            final(self).unlocked() == old(self).unlocked(),
            final(self).session_key() == old(self).session_key(),
            final(out)@.len() == old(out)@.len(),
            match old(self).access_failure() {
                Some(e) => r == Err::<EncryptResult, CoreError>(e) && final(out)@ == old(out)@,
                None => match encrypt_chunk_failure(
                    false,
                    old(self).session_key(),
                    plaintext@.len(),
                    old(out)@.len(),
                ) {
                    Some(e) => r == Err::<EncryptResult, CoreError>(core_error_of_session(e))
                        && final(out)@ == zeros(old(out)@.len()),
                    None => r is Ok && r->Ok_0.total_len == plaintext@.len() + TAG_LEN
                        && final(out)@ == sealed_chunk(
                        old(self).session_key()->Some_0,
                        chunk_aad(file_id, cloud_id, chunk),
                        plaintext@,
                    ),
                },
            },
    {
        match self.require_alive() {
            Ok(()) => {},
            Err(e) => {
                return Err(e);
            },
        }
        let session = match self.keystore.with_session(&self.fuse) {
            Ok(s) => s,
            Err(e) => {
                return Err(map_keystore_error(e));
            },
        };
        match encrypt_chunk(session, &self.fuse, file_id, cloud_id, chunk, plaintext, out) {
            Ok(res) => Ok(res),
            Err(e) => Err(map_keystore_error(KeyStoreError::Session(e))),
        }
    }

    /// Authenticates and decrypts a file chunk into `out`. A killed or
    /// locked core refuses and leaves `out` alone; every later failure, and
    /// a chunk that does not authenticate, zeroes `out`. What `encrypt_chunk`
    /// produced under the same session key and identifiers always verifies
    /// and decrypts to the plaintext it came from.
    pub fn decrypt_chunk(
        &mut self,
        file_id: FileId,
        cloud_id: CloudId,
        chunk: u32,
        ciphertext: &[u8],
        out: &mut [u8],
    ) -> (r: Result<VerifyResult, CoreError>)
        ensures
            final(self).killed() == old(self).killed(),
            final(self).unlocked() == old(self).unlocked(),
            final(self).session_key() == old(self).session_key(),
            final(out)@.len() == old(out)@.len(),
            match old(self).access_failure() {
                Some(e) => r == Err::<VerifyResult, CoreError>(e) && final(out)@ == old(out)@,
                None => match decrypt_chunk_failure(
                    false,
                    old(self).session_key(),
                    ciphertext@.len(),
                    old(out)@.len(),
                ) {
                    Some(e) => r == Err::<VerifyResult, CoreError>(core_error_of_session(e))
                        && final(out)@ == zeros(old(out)@.len()),
                    None => {
                        let key = old(self).session_key()->Some_0;
                        let aad = chunk_aad(file_id, cloud_id, chunk);
                        let opened = opened_chunk(key, aad, ciphertext@);
                        &&& r is Ok
                        &&& r->Ok_0.0 <==> opened is Some
                        &&& r->Ok_0.0 ==> opened == Some(final(out)@)
                        &&& !r->Ok_0.0 ==> final(out)@ == zeros(old(out)@.len())
                        &&& forall|pt: Seq<u8>|
                            pt.len() == old(out)@.len() && #[trigger] sealed_chunk(key, aad, pt)
                                == ciphertext@ ==> r->Ok_0.0 && final(out)@ == pt
                    },
                },
            },
    {
        match self.require_alive() {
            Ok(()) => {},
            Err(e) => {
                return Err(e);
            },
        }
        let session = match self.keystore.with_session(&self.fuse) {
            Ok(s) => s,
            Err(e) => {
                return Err(map_keystore_error(e));
            },
        };
        match decrypt_chunk(session, &self.fuse, file_id, cloud_id, chunk, ciphertext, out) {
            Ok(v) => Ok(v),
            Err(e) => Err(map_keystore_error(KeyStoreError::Session(e))),
        }
    }

    /// Executes a verified kill on this core. If the replay token is not
    /// taken, the core stays as it was. Otherwise the fuse is blown and the
    /// session is gone for good; the caller then halts the process.
    pub fn execute_kill(
        &mut self,
        root: &mut LogRoot,
        registry: &DeviceRegistry,
        replay: ReplayToken,
    ) -> (r: Result<(), KillError>)
        ensures
            r is Ok <==> commit_accepts(
                old(self).killed(),
                old(root).file(LogFile::Replay),
                replay.spec_value(),
            ),
            r is Err ==> r->Err_0 == KillError::ReplayDetected
                && final(self).killed() == old(self).killed()
                && final(self).unlocked() == old(self).unlocked()
                && final(self).session_key() == old(self).session_key()
                && final(root).same_files(old(root)),
            r is Ok ==> final(self).killed() && !final(self).unlocked() && final(root).file(
                LogFile::Replay,
            ) == Some(committed(old(root).file(LogFile::Replay)->Some_0, replay.spec_value()))
                && final(root).same_but(old(root), LogFile::Replay),
            old(self).killed() ==> final(self).killed(),
    {
        execute_kill(&mut self.keystore, &mut self.fuse, root, registry, replay)
    }

    /// Escalates a poisoned lock around the core: the fuse is blown and the
    /// session is gone for good.
    pub fn apply_verified_kill(&mut self)
        ensures
            final(self).killed(),
            !final(self).unlocked(),
    {
        self.keystore.apply_verified_kill(&mut self.fuse);
    }
}

} // verus!
