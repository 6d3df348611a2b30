//! The terminal kill: replay check, fuse, wipe.

use vstd::prelude::*;
use crate::device::registry::DeviceRegistry;
use crate::keystore::master::KillFuse;
use crate::keystore::KeyStore;
use crate::kill::replay::{check_and_commit, commit_accepts, committed, ReplayToken};
use crate::logging::encrypted::{LogFile, LogRoot};

verus! {

/// Why a kill was not executed.
#[derive(Debug, Clone, Copy, PartialEq, Eq, Structural)]
pub enum KillError {
    /// The replay token was not taken.
    ReplayDetected,
    /// The committed token could not be made durable.
    IoFailure,
}

/// Executes a verified kill. The replay token is committed first; if it is
/// not taken, nothing else happens. Then, in this order, the fuse is blown,
/// the keystore loses its session, and the kill marker is offered to the
/// registry, whose refusal is ignored. On `Ok` the caller halts the process.
pub fn execute_kill(
    keystore: &mut KeyStore,
    fuse: &mut KillFuse,
    root: &mut LogRoot,
    registry: &DeviceRegistry,
    replay: ReplayToken,
) -> (r: Result<(), KillError>)
    ensures
        r is Ok <==> commit_accepts(
            old(fuse).killed(),
            old(root).file(LogFile::Replay),
            replay.spec_value(),
        ),
        r is Err ==> r->Err_0 == KillError::ReplayDetected
            && final(fuse).killed() == old(fuse).killed()
            && final(keystore).state() == old(keystore).state()
            && final(root).same_files(old(root)),
        r is Ok ==> final(fuse).killed() && final(keystore).state() is Locked
            && final(root).file(LogFile::Replay) == Some(
            committed(old(root).file(LogFile::Replay)->Some_0, replay.spec_value()),
        ) && final(root).same_but(old(root), LogFile::Replay),
        old(fuse).killed() ==> final(fuse).killed(),
{
    if !check_and_commit(fuse, root, replay) {
        return Err(KillError::ReplayDetected);
    }
    fuse.blow();
    keystore.apply_verified_kill(fuse);
    let _ = registry.mark_this_device_killed(fuse, root);
    Ok(())
}

} // verus!
