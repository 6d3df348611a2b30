//! Replay protection for kill blobs: a strictly increasing token log.

use vstd::prelude::*;
use crate::encoding::{lemma_u64_be_roundtrip, u64_be, u64_from_be, u64_from_be_bytes};
use crate::keystore::master::KillFuse;
use crate::logging::encrypted::{last_token, whole_tokens, EncryptedLog, LogFile, LogRoot};

verus! {

/// The replay token carried by a kill blob.
#[derive(Clone, Copy)]
pub struct ReplayToken(u64);

impl ReplayToken {
    /// The numeric value.
    pub closed spec fn spec_value(self) -> u64 {
        self.0
    }

    /// Reads a token from exactly eight big-endian bytes.
    pub fn from_bytes(b: &[u8]) -> (r: Option<Self>)
        ensures
            r is Some <==> b@.len() == 8,
            r matches Some(t) ==> t.spec_value() == u64_from_be(b@),
    {
        if b.len() != 8 {
            return None;
        }
        assert(b@.subrange(0, 8) =~= b@);
        Some(ReplayToken(u64_from_be_bytes(b, 0)))
    }

    /// The numeric value.
    pub fn value(self) -> (r: u64)
        ensures
            r == self.spec_value(),
    {
        self.0
    }
}

/// The greatest token committed to a replay log; zero for an empty log.
pub open spec fn last_committed(log: Seq<u8>) -> u64 {
    match last_token(log) {
        Some(v) => v,
        None => 0,
    }
}

/// Whether a replay log of whole tokens takes `token`: only a token greater
/// than the last one committed.
pub open spec fn replay_accepts(log: Seq<u8>, token: u64) -> bool {
    whole_tokens(log) && token > last_committed(log)
}

/// Whether a commit goes through: the fuse is intact, the replay file can be
/// opened, and the log takes the token.
pub open spec fn commit_accepts(killed: bool, replay_file: Option<Seq<u8>>, token: u64) -> bool {
    !killed && replay_file is Some && replay_accepts(replay_file->Some_0, token)
}

/// The log after a token was committed.
pub open spec fn committed(log: Seq<u8>, token: u64) -> Seq<u8> {
    log + u64_be(token)
}

/// The log after the tokens of `run` were offered in turn, if each was taken.
pub open spec fn commit_run(log: Seq<u8>, run: Seq<u64>) -> Option<Seq<u8>>
    decreases run.len(),
{
    if run.len() == 0 {
        Some(log)
    } else if replay_accepts(log, run[0]) {
        commit_run(committed(log, run[0]), run.drop_first())
    } else {
        None
    }
}

/// Each token of `run` is greater than the one before.
pub open spec fn strictly_increasing(run: Seq<u64>) -> bool {
    forall|i: int, j: int| 0 <= i < j < run.len() ==> run[i] < run[j]
}

/// Committing a token keeps the log whole and makes the token the last one
/// committed.
pub proof fn lemma_committed(log: Seq<u8>, token: u64)
    requires
        whole_tokens(log),
    ensures
        whole_tokens(committed(log, token)),
        last_committed(committed(log, token)) == token,
{
    let after = committed(log, token);
    lemma_u64_be_roundtrip(token);
    assert(after.len() == log.len() + 8);
    assert(after.subrange(after.len() - 8, after.len() as int) =~= u64_be(token));
}

/// A strictly increasing run of tokens that starts above the last one
/// committed commits in full; afterwards the last token of the run is the
/// last one committed, and every token of the run is refused.
pub proof fn lemma_increasing_run_commits(log: Seq<u8>, run: Seq<u64>)
    requires
        whole_tokens(log),
        strictly_increasing(run),
        run.len() > 0,
        run[0] > last_committed(log),
    ensures
        commit_run(log, run) is Some,
        whole_tokens(commit_run(log, run)->Some_0),
        last_committed(commit_run(log, run)->Some_0) == run.last(),
        forall|i: int| 0 <= i < run.len() ==> !replay_accepts(commit_run(log, run)->Some_0, run[i]),
    decreases run.len(),
{
    let next = committed(log, run[0]);
    lemma_committed(log, run[0]);
    let rest = run.drop_first();
    if rest.len() == 0 {
        assert(commit_run(next, rest) == Some(next));
        assert(run.last() == run[0]);
    } else {
        assert(rest[0] == run[1]);
        assert forall|i: int, j: int| 0 <= i < j < rest.len() implies rest[i] < rest[j] by {
            assert(rest[i] == run[i + 1]);
            assert(rest[j] == run[j + 1]);
        }
        lemma_increasing_run_commits(next, rest);
        assert(rest.last() == run.last());
        let end = commit_run(next, rest)->Some_0;
        assert forall|i: int| 0 <= i < run.len() implies !replay_accepts(end, run[i]) by {
            if i < run.len() - 1 {
                assert(run[i] < run[run.len() - 1]);
            }
        }
    }
}

/// A token that is not greater than the last one committed is refused.
pub proof fn lemma_stale_token_refused(log: Seq<u8>, token: u64)
    requires
        token <= last_committed(log),
    ensures
        !replay_accepts(log, token),
{
}

/// Checks a token against the replay log and commits it: the token is taken
/// only if it is greater than the last one committed, and is then appended.
/// A blown fuse, a missing file and a corrupt log all refuse, and leave the
/// root as it was.
pub fn check_and_commit(fuse: &KillFuse, root: &mut LogRoot, token: ReplayToken) -> (r: bool)
    ensures
        r == commit_accepts(fuse.killed(), old(root).file(LogFile::Replay), token.spec_value()),
        r ==> final(root).file(LogFile::Replay) == Some(
            committed(old(root).file(LogFile::Replay)->Some_0, token.spec_value()),
        ),
        !r ==> final(root).same_files(old(root)),
        final(root).same_but(old(root), LogFile::Replay),
{
    let log = match EncryptedLog::open_replay_log(fuse, root) {
        Ok(l) => l,
        Err(()) => {
            return false;
        },
    };
    let last: u64 = match log.read_last_u64(root) {
        Ok(Some(v)) => v,
        Ok(None) => 0,
        Err(()) => {
            return false;
        },
    };
    if token.value() <= last {
        return false;
    }
    log.append_u64(fuse, root, token.value()).is_ok()
}

} // verus!
