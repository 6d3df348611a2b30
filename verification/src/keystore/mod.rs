//! The keystore: locked or active, under the kill fuse.

pub mod master;
pub mod recovery;
pub mod session;

use vstd::prelude::*;
use master::KillFuse;
use recovery::RecoveryAuthority;
use session::{Session, SessionError};

verus! {

/// Why the keystore refused an operation.
#[derive(Debug, Clone, Copy, PartialEq, Eq, Structural)]
pub enum KeyStoreError {
    /// No session is active.
    Locked,
    /// A session is active already.
    AlreadyUnlocked,
    /// The kill fuse is blown.
    Killed,
    /// The lock that guards the keystore was poisoned.
    Poisoned,
    /// The session refused.
    Session(SessionError),
}

impl From<SessionError> for KeyStoreError {
    fn from(e: SessionError) -> (r: Self) {
        KeyStoreError::Session(e)
    }
}

impl vstd::std_specs::convert::FromSpecImpl<SessionError> for KeyStoreError {
    open spec fn obeys_from_spec() -> bool {
        true
    }

    open spec fn from_spec(e: SessionError) -> Self {
        KeyStoreError::Session(e)
    }
}

/// State of the keystore.
pub enum State {
    /// No session.
    Locked,
    /// One active session.
    Active(Session),
}

/// Owner of the one session there can be.
pub struct KeyStore {
    state: State,
}

impl KeyStore {
    /// The state of the keystore.
    pub closed spec fn state(&self) -> State {
        self.state
    }

    /// The key of the active session, if there is one that holds a key.
    pub open spec fn session_key(&self) -> Option<Seq<u8>> {
        match self.state() {
            State::Active(s) => s.key(),
            State::Locked => None,
        }
    }

    /// A locked keystore.
    pub fn new() -> (r: Self)
        ensures
            r.state() is Locked,
    {
        KeyStore { state: State::Locked }
    }

    /// Installs a session from a single-use authority. Refused once the fuse
    /// is blown and while a session is active; the keystore is then left as
    /// it was.
    pub fn unlock(&mut self, fuse: &KillFuse, auth: RecoveryAuthority) -> (r: Result<
        (),
        KeyStoreError,
    >)
        ensures
            fuse.killed() ==> r == Err::<(), KeyStoreError>(KeyStoreError::Killed),
            !fuse.killed() && old(self).state() is Active ==> r == Err::<(), KeyStoreError>(
                KeyStoreError::AlreadyUnlocked,
            ),
            !fuse.killed() && old(self).state() is Locked ==> r is Ok,
            r is Ok ==> final(self).state() is Active && final(self).session_key() == Some(
                auth.session_key(),
            ),
            r is Err ==> final(self).state() == old(self).state(),
    {
        if fuse.is_killed() {
            return Err(KeyStoreError::Killed);
        }
        match self.state {
            State::Locked => {
                let session_key = auth.consume();
                self.state = State::Active(Session::new(session_key));
                Ok(())
            },
            State::Active(_) => Err(KeyStoreError::AlreadyUnlocked),
        }
    }

    /// The active session, for one operation on it.
    pub fn with_session(&mut self, fuse: &KillFuse) -> (r: Result<&mut Session, KeyStoreError>)
        ensures
            fuse.killed() ==> r is Err && r->Err_0 == KeyStoreError::Killed,
            !fuse.killed() && old(self).state() is Locked ==> r is Err && r->Err_0
                == KeyStoreError::Locked,
            !fuse.killed() && old(self).state() is Active ==> r is Ok,
            r matches Ok(s) ==> old(self).state() == State::Active(*s) && final(self).state()
                == State::Active(*final(s)),
            r is Err ==> final(self).state() == old(self).state(),
    {
        if fuse.is_killed() {
            return Err(KeyStoreError::Killed);
        }
        match &mut self.state {
            State::Active(s) => Ok(s),
            State::Locked => Err(KeyStoreError::Locked),
        }
    }

    /// Ends the active session, which zeroes its key, and returns to locked.
    /// Nothing happens if the keystore is locked or the fuse is blown.
    pub fn lock(&mut self, fuse: &KillFuse)
        ensures
            fuse.killed() ==> final(self).state() == old(self).state(),
            !fuse.killed() ==> final(self).state() is Locked,
    {
        if fuse.is_killed() {
            return ;
        }
        match &mut self.state {
            State::Active(s) => {
                s.kill();
            },
            State::Locked => {},
        }
        self.state = State::Locked;
    }

    /// Blows the fuse, ends the session and leaves the keystore without one.
    pub fn apply_verified_kill(&mut self, fuse: &mut KillFuse)
        ensures
            final(fuse).killed(),
            final(self).state() is Locked,
    {
        fuse.blow();
        match &mut self.state {
            State::Active(s) => {
                s.kill();
            },
            State::Locked => {},
        }
        self.state = State::Locked;
    }
}

} // verus!
