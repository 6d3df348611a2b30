//! The entry points of the bridge, on plain values.
//!
//! Every entry point looks at the kill fuse first, then at the handle, then
//! at its inputs, and reports one of the frozen error codes.

use vstd::prelude::*;
use crate::bridge::api::Core;
use crate::bridge::error::{bridge_error_of, BridgeError};
use crate::bridge::handle::CoreHandle;
use crate::crypto::file::{chunk_aad, CloudId, FileId};
use crate::crypto::kem::os_random_fill;
use crate::encoding::u64_from_be_bytes;
use crate::keystore::recovery::{recovered_session_key, recovery_failure, RecoveryConfig};
use crate::keystore::session::{opened_chunk, sealed_chunk};
use crate::memory::zeroize::zeros;

verus! {

/// The singleton behind the bridge: the core and the id of the one handle
/// that was given out.
pub struct Bridge {
    core: Core,
    id: Option<CoreHandle>,
}

/// The id that a random value yields: never zero.
pub open spec fn handle_id_of(random: u64) -> u64 {
    if random == 0 {
        1
    } else {
        random
    }
}

impl Bridge {
    /// The core behind the bridge.
    pub closed spec fn inner(&self) -> Core {
        self.core
    }

    /// The id of the handle given out, once the bridge is initialised.
    pub closed spec fn handle_id(&self) -> Option<u64> {
        match self.id {
            Some(h) => Some(h.spec_id()),
            None => None,
        }
    }

    /// Whether `handle` is the one that was given out.
    pub open spec fn accepts(&self, handle: u64) -> bool {
        self.handle_id() == Some(handle)
    }

    /// A bridge that has given out no handle, over a locked core.
    pub fn new() -> (r: Self)
        ensures
            !r.inner().killed(),
            !r.inner().unlocked(),
            r.handle_id() is None,
    {
        Bridge { core: Core::new(), id: None }
    }

    fn check_handle(&self, handle: u64) -> (r: bool)
        ensures
            r == self.accepts(handle),
    {
        match self.id {
            Some(h) => h.id() == handle,
            None => false,
        }
    }

    /// Initialises the bridge with a given random value and returns the
    /// handle made from it. The first handle made is the one the bridge
    /// accepts from then on. A killed bridge reports `Killed` and the
    /// handle zero.
    pub fn init_with(&mut self, random: u64) -> (r: (BridgeError, u64))
        ensures
            final(self).inner() == old(self).inner(),
            old(self).inner().killed() ==> r == (BridgeError::Killed, 0u64)
                && final(self).handle_id() == old(self).handle_id(),
            !old(self).inner().killed() ==> r == (BridgeError::Success, handle_id_of(random))
                && final(self).handle_id() == match old(self).handle_id() {
                Some(id) => Some(id),
                None => Some(handle_id_of(random)),
            },
    {
        if self.core.is_killed() {
            return (BridgeError::Killed, 0);
        }
        let handle = CoreHandle::from_random(random);
        match self.id {
            Some(_) => {},
            None => {
                self.id = Some(handle);
            },
        }
        (BridgeError::Success, handle.id())
    }

    /// Initialises the bridge with a value from the operating system's
    /// generator. Without randomness it reports `CryptoFailure` and the
    /// handle zero, and stays as it was.
    pub fn init(&mut self) -> (r: (BridgeError, u64))
        ensures
            final(self).inner() == old(self).inner(),
            old(self).inner().killed() ==> r == (BridgeError::Killed, 0u64),
            !old(self).inner().killed() ==> r.0 == BridgeError::Success || r == (
                BridgeError::CryptoFailure,
                0u64,
            ),
            r.0 == BridgeError::Success ==> r.1 != 0
                && final(self).handle_id() == match old(self).handle_id() {
                Some(id) => Some(id),
                None => Some(r.1),
            },
            r.0 != BridgeError::Success ==> final(self).handle_id() == old(self).handle_id(),
    {
        if self.core.is_killed() {
            return (BridgeError::Killed, 0);
        }
        let mut bytes = [0u8; 8];
        if !os_random_fill(&mut bytes) {
            return (BridgeError::CryptoFailure, 0);
        }
        self.init_with(u64_from_be_bytes(&bytes, 0))
    }

    /// Unlocks the core with a recovery phrase.
    pub fn unlock_with_phrase(&mut self, handle: u64, phrase: Vec<u8>) -> (r: BridgeError)
        ensures
            final(self).handle_id() == old(self).handle_id(),
            final(self).inner().killed() == old(self).inner().killed(),
            r == if old(self).inner().killed() {
                BridgeError::Killed
            } else if !old(self).accepts(handle) {
                BridgeError::Denied
            } else if phrase@.len() == 0 {
                BridgeError::InvalidInput
            } else if recovery_failure(phrase@.len(), RecoveryConfig::spec_default().kdf)
                is Some {
                BridgeError::IntegrityFailure
            } else if old(self).inner().unlocked() {
                BridgeError::Denied
            } else {
                BridgeError::Success
            },
            r == BridgeError::Success ==> final(self).inner().unlocked()
                && final(self).inner().session_key() == Some(
                recovered_session_key(phrase@, RecoveryConfig::spec_default().kdf),
            ),
            r != BridgeError::Success
                ==> final(self).inner().unlocked() == old(self).inner().unlocked()
                && final(self).inner().session_key() == old(self).inner().session_key(),
    {
        if self.core.is_killed() {
            return BridgeError::Killed;
        }
        if !self.check_handle(handle) {
            return BridgeError::Denied;
        }
        if phrase.len() == 0 {
            return BridgeError::InvalidInput;
        }
        match self.core.unlock_with_phrase(phrase) {
            Ok(()) => BridgeError::Success,
            Err(e) => BridgeError::from(e),
        }
    }

    /// Ends the active session, if the handle is the one given out.
    pub fn lock(&mut self, handle: u64)
        ensures
            final(self).handle_id() == old(self).handle_id(),
            final(self).inner().killed() == old(self).inner().killed(),
            !old(self).inner().killed() && old(self).accepts(handle)
                ==> !final(self).inner().unlocked(),
            old(self).inner().killed() || !old(self).accepts(handle) ==> final(self).inner()
                == old(self).inner(),
    {
        if self.core.is_killed() {
            return ;
        }
        if !self.check_handle(handle) {
            return ;
        }
        self.core.lock();
    }

    /// Whether the core is killed: one if it is, zero if not.
    pub fn is_killed(&self) -> (r: i32)
        ensures
            r == if self.inner().killed() {
                1i32
            } else {
                0i32
            },
    {
        if self.core.is_killed() {
            1
        } else {
            0
        }
    }

    /// Encrypts a file chunk into `out`, which must be sixteen bytes longer
    /// than the input.
    pub fn encrypt_chunk(
        &mut self,
        handle: u64,
        file_id: FileId,
        cloud_id: CloudId,
        chunk: u32,
        input: &[u8],
        out: &mut [u8],
    ) -> (r: BridgeError)
        ensures
            final(self).handle_id() == old(self).handle_id(),
            final(self).inner().killed() == old(self).inner().killed(),
            final(self).inner().unlocked() == old(self).inner().unlocked(),
            final(self).inner().session_key() == old(self).inner().session_key(),
            final(out)@.len() == old(out)@.len(),
            r == if old(self).inner().killed() {
                BridgeError::Killed
            } else if !old(self).accepts(handle) {
                BridgeError::Denied
            } else {
                match old(self).inner().encrypt_failure(input@.len(), old(out)@.len()) {
                    Some(e) => bridge_error_of(e),
                    None => BridgeError::Success,
                }
            },
            r == BridgeError::Success ==> final(out)@ == sealed_chunk(
                old(self).inner().session_key()->Some_0,
                chunk_aad(file_id, cloud_id, chunk),
                input@,
            ),
            old(self).inner().killed() || !old(self).accepts(handle)
                || old(self).inner().access_failure() is Some ==> final(out)@ == old(out)@,
            !old(self).inner().killed() && old(self).accepts(handle)
                && old(self).inner().access_failure() is None && r != BridgeError::Success
                ==> final(out)@
                == zeros(old(out)@.len()),
    {
        if self.core.is_killed() {
            return BridgeError::Killed;
        }
        if !self.check_handle(handle) {
            return BridgeError::Denied;
        }
        match self.core.encrypt_chunk(file_id, cloud_id, chunk, input, out) {
            Ok(_) => BridgeError::Success,
            Err(e) => BridgeError::from(e),
        }
    }

    /// Authenticates and decrypts a file chunk into `out`, which must be
    /// sixteen bytes shorter than the input. A chunk that does not
    /// authenticate is reported as `CryptoFailure`, with `out` zeroed. What
    /// `encrypt_chunk` produced under the same session key and identifiers
    /// always decrypts to the plaintext it came from.
    pub fn decrypt_chunk(
        &mut self,
        handle: u64,
        file_id: FileId,
        cloud_id: CloudId,
        chunk: u32,
        input: &[u8],
        out: &mut [u8],
    ) -> (r: BridgeError)
        ensures
            final(self).handle_id() == old(self).handle_id(),
            final(self).inner().killed() == old(self).inner().killed(),
            final(self).inner().unlocked() == old(self).inner().unlocked(),
            final(self).inner().session_key() == old(self).inner().session_key(),
            final(out)@.len() == old(out)@.len(),
            old(self).inner().killed() ==> r == BridgeError::Killed,
            !old(self).inner().killed() && !old(self).accepts(handle) ==> r == BridgeError::Denied,
            !old(self).inner().killed() && old(self).accepts(handle)
                ==> match old(self).inner().decrypt_failure(input@.len(), old(out)@.len()) {
                Some(e) => r == bridge_error_of(e),
                None => {
                    let key = old(self).inner().session_key()->Some_0;
                    let aad = chunk_aad(file_id, cloud_id, chunk);
                    let opened = opened_chunk(key, aad, input@);
                    &&& r == if opened is Some {
                        BridgeError::Success
                    } else {
                        BridgeError::CryptoFailure
                    }
                    &&& r == BridgeError::Success ==> opened == Some(final(out)@)
                    &&& forall|pt: Seq<u8>|
                        pt.len() == old(out)@.len() && #[trigger] sealed_chunk(key, aad, pt)
                            == input@ ==> r == BridgeError::Success && final(out)@ == pt
                },
            },
            old(self).inner().killed() || !old(self).accepts(handle)
                || old(self).inner().access_failure() is Some ==> final(out)@ == old(out)@,
            !old(self).inner().killed() && old(self).accepts(handle)
                && old(self).inner().access_failure() is None && r != BridgeError::Success
                ==> final(out)@
                == zeros(old(out)@.len()),
    {
        if self.core.is_killed() {
            return BridgeError::Killed;
        }
        if !self.check_handle(handle) {
            return BridgeError::Denied;
        }
        match self.core.decrypt_chunk(file_id, cloud_id, chunk, input, out) {
            Ok(v) => {
                if v.0 {
                    BridgeError::Success
                } else {
                    BridgeError::CryptoFailure
                }
            },
            Err(e) => BridgeError::from(e),
        }
    }

    /// The core, for the kill path and for a storage layer that escalates a
    /// poisoned lock.
    pub fn core_mut(&mut self) -> (r: &mut Core)
        ensures
            *r == old(self).inner(),
            final(self).inner() == *final(r),
            final(self).handle_id() == old(self).handle_id(),
    {
        &mut self.core
    }
}

} // verus!
