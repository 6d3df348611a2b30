//! From a recovery phrase to the authority that unlocks the keystore.

use vstd::prelude::*;
use crate::crypto::derive::{derive_key, Purpose};
use crate::crypto::kdf_argon2::{
    argon2id, derive_single_key, params_in_bounds, Params, ARGON2_MAX_LEN,
};
use crate::integrity::verify::{bound_session_key, verify_key_integrity, INTEGRITY_CONTEXT};
use crate::memory::guard::GuardedKey32;
use crate::memory::zeroize::Secret;

verus! {

/// How a phrase is stretched.
#[derive(Clone, Copy)]
pub struct RecoveryConfig {
    /// Argon2id cost parameters.
    pub kdf: Params,
}

impl RecoveryConfig {
    /// The default configuration: 64 MiB, three passes, one lane.
    pub open spec fn spec_default() -> RecoveryConfig {
        RecoveryConfig { kdf: Params { mem_kib: 65536, time: 3, lanes: 1 } }
    }
}

impl Default for RecoveryConfig {
    /// The default cost parameters.
    fn default() -> (r: Self)
        ensures
            r == RecoveryConfig::spec_default(),
    {
        RecoveryConfig { kdf: Params { mem_kib: 65536, time: 3, lanes: 1 } }
    }
}

/// Why a recovery failed.
#[derive(Debug, Clone, Copy, PartialEq, Eq, Structural)]
pub enum RecoveryError {
    /// The phrase is empty.
    InvalidInput,
    /// The phrase could not be stretched.
    KdfFailure,
    /// The session key is not bound to the root.
    IntegrityFailure,
}

/// The salt under which phrases are stretched, `rcxcloud-recovery-v1`.
pub open spec fn recovery_salt() -> Seq<u8> {
    seq![
        0x72u8, 0x63u8, 0x78u8, 0x63u8, 0x6cu8, 0x6fu8, 0x75u8, 0x64u8,
        0x2du8, 0x72u8, 0x65u8, 0x63u8, 0x6fu8, 0x76u8, 0x65u8, 0x72u8,
        0x79u8, 0x2du8, 0x76u8, 0x31u8,
    ]
}

/// The root key that a phrase stretches to.
pub open spec fn recovery_root(phrase: Seq<u8>, kdf: Params) -> Seq<u8> {
    argon2id(phrase, recovery_salt(), kdf.mem_kib, kdf.time, kdf.lanes, 32)
}

/// The session key that a phrase unlocks: the key bound to its root.
pub open spec fn recovered_session_key(phrase: Seq<u8>, kdf: Params) -> Seq<u8> {
    bound_session_key(recovery_root(phrase, kdf))
}

/// The error a recovery ends in, if any.
pub open spec fn recovery_failure(phrase_len: nat, kdf: Params) -> Option<RecoveryError> {
    if phrase_len == 0 {
        Some(RecoveryError::InvalidInput)
    } else if !params_in_bounds(kdf) || phrase_len > ARGON2_MAX_LEN {
        Some(RecoveryError::KdfFailure)
    } else {
        None
    }
}

/// The right to unlock a keystore once. It holds the session key and nothing
/// else.
pub struct RecoveryAuthority {
    session: GuardedKey32,
}

impl RecoveryAuthority {
    /// The session key held.
    pub closed spec fn session_key(&self) -> Seq<u8> {
        self.session@
    }

    /// Uses the authority up and hands out its session key.
    pub fn consume(self) -> (r: GuardedKey32)
        ensures
            r@ == self.session_key(),
    {
        self.session
    }
}

/// Turns a recovery phrase into an unlock authority. The phrase is stretched
/// with Argon2id into a root key; the session key is derived from the root,
/// and their binding is verified before the root is dropped. A wiped phrase
/// counts as empty.
pub fn recover_from_phrase(phrase: Secret, cfg: &RecoveryConfig) -> (r: Result<
    RecoveryAuthority,
    RecoveryError,
>)
    ensures
        match recovery_failure(phrase@.len(), cfg.kdf) {
            Some(e) => r == Err::<RecoveryAuthority, RecoveryError>(e),
            None => r is Ok && r->Ok_0.session_key() == recovered_session_key(phrase@, cfg.kdf),
        },
{
    if phrase.is_wiped() {
        return Err(RecoveryError::InvalidInput);
    }
    if phrase.borrow().len() == 0 {
        return Err(RecoveryError::InvalidInput);
    }
    let salt: [u8; 20] = [
        0x72u8, 0x63u8, 0x78u8, 0x63u8, 0x6cu8, 0x6fu8, 0x75u8, 0x64u8,
        0x2du8, 0x72u8, 0x65u8, 0x63u8, 0x6fu8, 0x76u8, 0x65u8, 0x72u8,
        0x79u8, 0x2du8, 0x76u8, 0x31u8,
    ];
    assert(salt@ =~= recovery_salt());
    let mut root = GuardedKey32::zeroed();
    let mut session = GuardedKey32::zeroed();
    match derive_single_key(&phrase, &salt, &cfg.kdf, &mut root) {
        Ok(()) => {},
        Err(_) => {
            return Err(RecoveryError::KdfFailure);
        },
    }
    match derive_key(&root, Purpose::Recovery, INTEGRITY_CONTEXT, &mut session) {
        Ok(()) => {},
        Err(()) => {
            return Err(RecoveryError::KdfFailure);
        },
    }
    match verify_key_integrity(&root, &session) {
        Ok(()) => {},
        Err(_) => {
            return Err(RecoveryError::IntegrityFailure);
        },
    }
    Ok(RecoveryAuthority { session })
}

} // verus!
