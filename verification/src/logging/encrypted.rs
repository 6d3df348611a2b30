//! The three log files of the core, held as images of their contents.
//!
//! The storage layer reads the files into a `LogRoot` and writes back what
//! the operations here leave in it. A file that could not be opened or read
//! is held as missing, and every operation on it fails closed.

use vstd::prelude::*;
use crate::encoding::{
    u32_be, u32_to_be_bytes, u64_be, u64_from_be, u64_from_be_bytes, u64_to_be_bytes,
};
use crate::keystore::master::KillFuse;

verus! {

/// One of the files under the log root.
#[derive(Clone, Copy, PartialEq, Eq, Debug, Structural)]
pub enum LogFile {
    /// `device_identity.bin`: one fixed record, overwritten as a whole.
    Identity,
    /// `device_kill.log`: length-prefixed records, append only.
    KillMarker,
    /// `kill_replay.log`: raw big-endian 64-bit tokens, append only.
    Replay,
}

/// The contents of the files under the log root. `None` stands for a file
/// that cannot be opened.
pub struct LogRoot {
    identity: Option<Vec<u8>>,
    kill: Option<Vec<u8>>,
    replay: Option<Vec<u8>>,
}

impl LogRoot {
    /// The contents of a file, unless it cannot be opened.
    pub closed spec fn file(&self, which: LogFile) -> Option<Seq<u8>> {
        let slot = match which {
            LogFile::Identity => self.identity,
            LogFile::KillMarker => self.kill,
            LogFile::Replay => self.replay,
        };
        match slot {
            Some(v) => Some(v@),
            None => None,
        }
    }

    /// Every file but `which` is the same in `self` and `other`.
    pub open spec fn same_but(&self, other: &LogRoot, which: LogFile) -> bool {
        forall|w: LogFile| w != which ==> self.file(w) == other.file(w)
    }

    /// Every file is the same in `self` and `other`.
    pub open spec fn same_files(&self, other: &LogRoot) -> bool {
        forall|w: LogFile| self.file(w) == other.file(w)
    }

    /// A root with the given file contents.
    pub fn new(identity: Option<Vec<u8>>, kill: Option<Vec<u8>>, replay: Option<Vec<u8>>) -> (r:
        Self)
        ensures
            r.file(LogFile::Identity) == crate::logging::encrypted::opt_view(identity),
            r.file(LogFile::KillMarker) == crate::logging::encrypted::opt_view(kill),
            r.file(LogFile::Replay) == crate::logging::encrypted::opt_view(replay),
    {
        LogRoot { identity, kill, replay }
    }

    /// The contents of a file, for the storage layer to write back.
    pub fn contents(&self, which: LogFile) -> (r: &Option<Vec<u8>>)
        ensures
            crate::logging::encrypted::opt_view(*r) == self.file(which),
    {
        match which {
            LogFile::Identity => &self.identity,
            LogFile::KillMarker => &self.kill,
            LogFile::Replay => &self.replay,
        }
    }

    fn slot_mut(&mut self, which: LogFile) -> (r: &mut Option<Vec<u8>>)
        ensures
            crate::logging::encrypted::opt_view(*r) == old(self).file(which),
            final(self).file(which) == crate::logging::encrypted::opt_view(*final(r)),
            final(self).same_but(old(self), which),
    {
        match which {
            LogFile::Identity => &mut self.identity,
            LogFile::KillMarker => &mut self.kill,
            LogFile::Replay => &mut self.replay,
        }
    }
}

/// The bytes of an optional vector.
pub open spec fn opt_view(v: Option<Vec<u8>>) -> Option<Seq<u8>> {
    match v {
        Some(b) => Some(b@),
        None => None,
    }
}

/// Sets up the log root from what storage holds for each file.
pub fn init_log_root(
    identity: Option<Vec<u8>>,
    kill: Option<Vec<u8>>,
    replay: Option<Vec<u8>>,
) -> (r: LogRoot)
    ensures
        r.file(LogFile::Identity) == opt_view(identity),
        r.file(LogFile::KillMarker) == opt_view(kill),
        r.file(LogFile::Replay) == opt_view(replay),
{
    LogRoot::new(identity, kill, replay)
}

/// A length-prefixed record: the length in four big-endian bytes, then the
/// data.
pub open spec fn record(data: Seq<u8>) -> Seq<u8>
    recommends
        data.len() <= u32::MAX,
{
    u32_be(data.len() as u32) + data
}

/// The replay log holds whole tokens only.
pub open spec fn whole_tokens(log: Seq<u8>) -> bool {
    log.len() % 8 == 0
}

/// The last token of a replay log of whole tokens, if it holds any.
pub open spec fn last_token(log: Seq<u8>) -> Option<u64> {
    if log.len() == 0 {
        None
    } else {
        Some(u64_from_be(log.subrange(log.len() - 8, log.len() as int)))
    }
}

/// An open log file.
pub struct EncryptedLog {
    which: LogFile,
}

impl EncryptedLog {
    /// The file the log stands for.
    pub closed spec fn which(&self) -> LogFile {
        self.which
    }

    fn open_internal(fuse: &KillFuse, root: &LogRoot, which: LogFile) -> (r: Result<Self, ()>)
        ensures
            r is Ok <==> !fuse.killed() && root.file(which) is Some,
            r matches Ok(log) ==> log.which() == which,
    {
        if fuse.is_killed() {
            return Err(());
        }
        match root.contents(which) {
            Some(_) => Ok(EncryptedLog { which }),
            None => Err(()),
        }
    }

    /// Opens the identity file. Refused once the fuse is blown.
    pub fn open_device_identity(fuse: &KillFuse, root: &LogRoot) -> (r: Result<Self, ()>)
        ensures
            r is Ok <==> !fuse.killed() && root.file(LogFile::Identity) is Some,
            r matches Ok(log) ==> log.which() == LogFile::Identity,
    {
        Self::open_internal(fuse, root, LogFile::Identity)
    }

    /// Opens the kill-marker file. Refused once the fuse is blown.
    pub fn open_device_kill_log(fuse: &KillFuse, root: &LogRoot) -> (r: Result<Self, ()>)
        ensures
            r is Ok <==> !fuse.killed() && root.file(LogFile::KillMarker) is Some,
            r matches Ok(log) ==> log.which() == LogFile::KillMarker,
    {
        Self::open_internal(fuse, root, LogFile::KillMarker)
    }

    /// Opens the replay file. Refused once the fuse is blown.
    pub fn open_replay_log(fuse: &KillFuse, root: &LogRoot) -> (r: Result<Self, ()>)
        ensures
            r is Ok <==> !fuse.killed() && root.file(LogFile::Replay) is Some,
            r matches Ok(log) ==> log.which() == LogFile::Replay,
    {
        Self::open_internal(fuse, root, LogFile::Replay)
    }

    /// Appends a length-prefixed record. Refused once the fuse is blown, on
    /// a missing file, and for data whose length does not fit the prefix;
    /// the root is then left as it was.
    pub fn append_record(&self, fuse: &KillFuse, root: &mut LogRoot, data: &[u8]) -> (r: Result<
        (),
        (),
    >)
        ensures
            r is Ok <==> !fuse.killed() && old(root).file(self.which()) is Some && data@.len()
                <= u32::MAX,
            r is Ok ==> final(root).file(self.which()) == Some(
                old(root).file(self.which())->Some_0 + record(data@),
            ),
            r is Err ==> final(root).file(self.which()) == old(root).file(self.which()),
            final(root).same_but(old(root), self.which()),
    {
        if fuse.is_killed() {
            return Err(());
        }
        if data.len() > u32::MAX as usize {
            return Err(());
        }
        let len = u32_to_be_bytes(data.len() as u32);
        match root.slot_mut(self.which) {
            Some(file) => {
                file.extend_from_slice(&len);
                file.extend_from_slice(data);
                assert(file@ =~= old(root).file(self.which())->Some_0 + record(data@));
                Ok(())
            },
            None => Err(()),
        }
    }

    /// Whether the file holds anything. A missing file counts as holding
    /// something.
    pub fn has_any_content(&self, root: &LogRoot) -> (r: bool)
        ensures
            r == match root.file(self.which()) {
                Some(bytes) => bytes.len() > 0,
                None => true,
            },
    {
        match root.contents(self.which) {
            Some(file) => file.len() > 0,
            None => true,
        }
    }

    /// Appends a token as eight raw big-endian bytes. Refused once the fuse
    /// is blown and on a missing file; the root is then left as it was.
    pub fn append_u64(&self, fuse: &KillFuse, root: &mut LogRoot, value: u64) -> (r: Result<
        (),
        (),
    >)
        ensures
            r is Ok <==> !fuse.killed() && old(root).file(self.which()) is Some,
            r is Ok ==> final(root).file(self.which()) == Some(
                old(root).file(self.which())->Some_0 + u64_be(value),
            ),
            r is Err ==> final(root).file(self.which()) == old(root).file(self.which()),
            final(root).same_but(old(root), self.which()),
    {
        if fuse.is_killed() {
            return Err(());
        }
        let bytes = u64_to_be_bytes(value);
        match root.slot_mut(self.which) {
            Some(file) => {
                file.extend_from_slice(&bytes);
                Ok(())
            },
            None => Err(()),
        }
    }

    /// Reads the last token of the file. An empty file has none; a file
    /// whose size is no multiple of eight is corrupt.
    pub fn read_last_u64(&self, root: &LogRoot) -> (r: Result<Option<u64>, ()>)
        ensures
            r is Ok <==> root.file(self.which()) is Some && whole_tokens(
                root.file(self.which())->Some_0,
            ),
            r matches Ok(last) ==> last == last_token(root.file(self.which())->Some_0),
    {
        match root.contents(self.which) {
            Some(file) => {
                let len: usize = file.len();
                if len % 8 != 0 {
                    return Err(());
                }
                if len == 0 {
                    return Ok(None);
                }
                Ok(Some(u64_from_be_bytes(file.as_slice(), len - 8)))
            },
            None => Err(()),
        }
    }

    /// Replaces the contents of the file. Refused once the fuse is blown and
    /// on a missing file; the root is then left as it was.
    pub fn write_fixed(&self, fuse: &KillFuse, root: &mut LogRoot, data: &[u8]) -> (r: Result<
        (),
        (),
    >)
        ensures
            r is Ok <==> !fuse.killed() && old(root).file(self.which()) is Some,
            r is Ok ==> final(root).file(self.which()) == Some(data@),
            r is Err ==> final(root).file(self.which()) == old(root).file(self.which()),
            final(root).same_but(old(root), self.which()),
    {
        if fuse.is_killed() {
            return Err(());
        }
        match root.slot_mut(self.which) {
            Some(file) => {
                file.clear();
                file.extend_from_slice(data);
                assert(file@ =~= data@);
                Ok(())
            },
            None => Err(()),
        }
    }

    /// Reads the whole file; an empty file reads as nothing.
    pub fn read_fixed(&self, root: &LogRoot) -> (r: Result<Option<Vec<u8>>, ()>)
        ensures
            r is Ok <==> root.file(self.which()) is Some,
            r matches Ok(got) ==> match got {
                Some(bytes) => bytes@.len() > 0 && root.file(self.which()) == Some(bytes@),
                None => root.file(self.which()) == Some(Seq::<u8>::empty()),
            },
    {
        match root.contents(self.which) {
            Some(file) => {
                if file.len() == 0 {
                    assert(file@ =~= Seq::<u8>::empty());
                    Ok(None)
                } else {
                    Ok(Some(file.clone()))
                }
            },
            None => Err(()),
        }
    }
}

} // verus!
