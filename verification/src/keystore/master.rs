//! The kill fuse and the master key store.

use vstd::prelude::*;
use crate::memory::guard::GuardedKey32;

verus! {

/// The irreversible kill fuse. It starts intact and can only be blown;
/// nothing sets it back.
pub struct KillFuse {
    blown: bool,
}

impl KillFuse {
    /// The fuse has been blown.
    pub closed spec fn killed(&self) -> bool {
        self.blown
    }

    /// An intact fuse.
    pub fn new() -> (r: Self)
        ensures
            !r.killed(),
    {
        KillFuse { blown: false }
    }

    /// Whether the fuse has been blown.
    pub fn is_killed(&self) -> (r: bool)
        ensures
            r == self.killed(),
    {
        self.blown
    }

    /// Blows the fuse.
    pub fn blow(&mut self)
        ensures
            final(self).killed(),
    {
        self.blown = true;
    }
}

/// Whether the fuse has been blown.
pub fn is_globally_killed(fuse: &KillFuse) -> (r: bool)
    ensures
        r == fuse.killed(),
{
    fuse.is_killed()
}

/// Why the master key store refused an operation.
#[derive(PartialEq, Eq, Clone, Copy, Debug, Structural)]
pub enum KeystoreError {
    /// No key is held.
    Locked,
    /// The store, or the fuse, has been killed.
    Wiped,
    /// The lock that guards the store was poisoned.
    Poisoned,
    /// A key is held already, or the store is beyond use.
    AlreadyUnlocked,
}

/// State of the master key store.
pub enum KeyState {
    /// No key is held.
    Locked,
    /// The master key is held.
    Unlocked(GuardedKey32),
    /// The key was wiped for good.
    Wiped,
}

/// Holder of the master key, with a terminal wiped state.
pub struct MasterKeyStore {
    state: KeyState,
}

impl MasterKeyStore {
    /// The state of the store.
    pub closed spec fn state(&self) -> KeyState {
        self.state
    }

    /// The key held, if the store is unlocked.
    pub open spec fn key(&self) -> Option<Seq<u8>> {
        match self.state() {
            KeyState::Unlocked(k) => Some(k@),
            _ => None,
        }
    }

    /// A locked store.
    pub fn new() -> (r: Self)
        ensures
            r.state() is Locked,
    {
        MasterKeyStore { state: KeyState::Locked }
    }

    /// Installs the master key in a locked store.
    pub fn unlock(&mut self, fuse: &KillFuse, key: GuardedKey32) -> (r: Result<(), KeystoreError>)
        ensures
            fuse.killed() ==> r == Err::<(), KeystoreError>(KeystoreError::Wiped),
            !fuse.killed() && !(old(self).state() is Locked) ==> r == Err::<(), KeystoreError>(
                KeystoreError::AlreadyUnlocked,
            ),
            r is Ok <==> !fuse.killed() && old(self).state() is Locked,
            r is Ok ==> final(self).key() == Some(key@),
            r is Err ==> final(self).state() == old(self).state(),
    {
        if is_globally_killed(fuse) {
            return Err(KeystoreError::Wiped);
        }
        match self.state {
            KeyState::Locked => {
                self.state = KeyState::Unlocked(key);
                Ok(())
            },
            _ => Err(KeystoreError::AlreadyUnlocked),
        }
    }

    /// Drops the key and returns to locked; once the fuse is blown the store
    /// becomes wiped instead.
    pub fn lock(&mut self, fuse: &KillFuse) -> (r: Result<(), KeystoreError>)
        ensures
            fuse.killed() ==> r == Err::<(), KeystoreError>(KeystoreError::Wiped)
                && final(self).state() is Wiped,
            !fuse.killed() ==> r is Ok && final(self).state() is Locked,
    {
        if is_globally_killed(fuse) {
            self.state = KeyState::Wiped;
            return Err(KeystoreError::Wiped);
        }
        self.state = KeyState::Locked;
        Ok(())
    }

    /// Blows the fuse and wipes the key for good.
    pub fn apply_verified_kill(&mut self, fuse: &mut KillFuse)
        ensures
            final(fuse).killed(),
            final(self).state() is Wiped,
    {
        fuse.blow();
        self.state = KeyState::Wiped;
    }

    /// The key of an unlocked store.
    pub fn with_key(&self, fuse: &KillFuse) -> (r: Result<&GuardedKey32, KeystoreError>)
        ensures
            fuse.killed() ==> r == Err::<&GuardedKey32, KeystoreError>(KeystoreError::Wiped),
            !fuse.killed() ==> match self.state() {
                KeyState::Unlocked(k) => r == Ok::<&GuardedKey32, KeystoreError>(&k),
                KeyState::Locked => r == Err::<&GuardedKey32, KeystoreError>(
                    KeystoreError::Locked,
                ),
                KeyState::Wiped => r == Err::<&GuardedKey32, KeystoreError>(KeystoreError::Wiped),
            },
    {
        if is_globally_killed(fuse) {
            return Err(KeystoreError::Wiped);
        }
        match &self.state {
            KeyState::Unlocked(key) => Ok(key),
            KeyState::Locked => Err(KeystoreError::Locked),
            KeyState::Wiped => Err(KeystoreError::Wiped),
        }
    }
}

} // verus!
