//! Verification of kill blobs.

use vstd::prelude::*;
use crate::crypto::aes_gcm::{aes256_gcm_open, aes256_gcm_seal, open, NONCE_LEN, TAG_LEN};
use crate::crypto::derive::{derive_key, derived_key, Purpose};
use crate::device::registry::DeviceRegistry;
use crate::encoding::{array_from, lemma_u64_be_roundtrip, u64_be, u64_from_be};
use crate::integrity::verify::ct_eq_bytes;
use crate::kill::protocol::{build_kill_aad, kill_aad};
use crate::kill::replay::ReplayToken;
use crate::memory::guard::GuardedKey32;
use crate::memory::zeroize::{wipe_vec, Secret};

verus! {

/// The only version of the kill protocol.
pub const KILL_VERSION_V1: u8 = 1;

/// Length of the plaintext of a kill blob: version, device id, replay token.
pub const PLAINTEXT_LEN: usize = 41;

/// Length of a kill blob: nonce, payload and tag.
pub const BLOB_LEN: usize = 69;

/// Shortest blob that can be looked at: a nonce and a tag.
pub const MIN_BLOB_LEN: usize = 28;

/// An authenticated decision to kill this device.
pub struct KillDecision {
    /// The replay token of the blob.
    pub replay: ReplayToken,
}

/// The key that authenticates kill blobs for a device.
pub open spec fn kill_key(root_key: Seq<u8>, fingerprint: u64) -> Seq<u8> {
    derived_key(root_key, Purpose::Recovery, fingerprint)
}

/// The plaintext of a kill blob: the version, the id of the device to kill,
/// and the replay token, big-endian.
pub open spec fn kill_payload(target: Seq<u8>, replay: u64) -> Seq<u8> {
    seq![KILL_VERSION_V1] + target + u64_be(replay)
}

/// A kill blob: the nonce, then the ciphertext and tag of the payload under
/// the kill key of the device with the given fingerprint.
pub open spec fn kill_blob(
    root_key: Seq<u8>,
    fingerprint: u64,
    target: Seq<u8>,
    replay: u64,
    nonce: Seq<u8>,
) -> Seq<u8> {
    nonce + aes256_gcm_seal(
        kill_key(root_key, fingerprint),
        nonce,
        kill_payload(target, replay),
        kill_aad(fingerprint),
    )
}

/// What a blob decrypts to under the kill key of a device, if it is long
/// enough and authenticates.
pub open spec fn opened_blob(fingerprint: u64, root_key: Seq<u8>, blob: Seq<u8>) -> Option<
    Seq<u8>,
> {
    if blob.len() < MIN_BLOB_LEN {
        None
    } else {
        aes256_gcm_open(
            kill_key(root_key, fingerprint),
            blob.subrange(0, NONCE_LEN as int),
            blob.subrange(NONCE_LEN as int, blob.len() as int),
            kill_aad(fingerprint),
        )
    }
}

/// The replay token that a blob carries for the device with the given id and
/// fingerprint: present only if the blob authenticates, has the payload's
/// length and version, and names this device.
pub open spec fn kill_verdict(
    device_id: Seq<u8>,
    fingerprint: u64,
    root_key: Seq<u8>,
    blob: Seq<u8>,
) -> Option<u64> {
    match opened_blob(fingerprint, root_key, blob) {
        None => None,
        Some(pt) => if pt.len() == PLAINTEXT_LEN && pt[0] == KILL_VERSION_V1 && pt.subrange(1, 33)
            == device_id {
            Some(u64_from_be(pt.subrange(33, 41)))
        } else {
            None
        },
    }
}

/// The parts of an authenticated payload.
struct ParsedKill {
    device_id: [u8; 32],
    replay: ReplayToken,
}

/// Authenticates and decrypts a blob, and checks the payload's length and
/// version. The plaintext is wiped unless it is handed out.
fn decrypt_blob(key: &GuardedKey32, blob: &[u8], aad: &[u8]) -> (r: Option<Secret>)
    ensures
        r is Some <==> blob@.len() >= MIN_BLOB_LEN && (aes256_gcm_open(
            key@,
            blob@.subrange(0, NONCE_LEN as int),
            blob@.subrange(NONCE_LEN as int, blob@.len() as int),
            aad@,
        ) matches Some(pt) && pt.len() == PLAINTEXT_LEN && pt[0] == KILL_VERSION_V1),
        r matches Some(s) ==> s.is_live() && aes256_gcm_open(
            key@,
            blob@.subrange(0, NONCE_LEN as int),
            blob@.subrange(NONCE_LEN as int, blob@.len() as int),
            aad@,
        ) == Some(s@),
        forall|pt: Seq<u8>|
            pt.len() == PLAINTEXT_LEN && pt[0] == KILL_VERSION_V1 && aad@.len() <= 64
                && blob@.len() == BLOB_LEN && #[trigger] aes256_gcm_seal(
                key@,
                blob@.subrange(0, NONCE_LEN as int),
                pt,
                aad@,
            ) == blob@.subrange(NONCE_LEN as int, blob@.len() as int) ==> r is Some && r->Some_0@
                == pt,
{
    if blob.len() < NONCE_LEN + TAG_LEN {
        return None;
    }
    let nonce: [u8; 12] = array_from(blob, 0);
    let (_, ciphertext) = blob.split_at(NONCE_LEN);
    let pt_len: usize = ciphertext.len() - TAG_LEN;
    let mut plaintext: Vec<u8> = vec![0u8; pt_len];
    let ok = open(key, &nonce, ciphertext, aad, plaintext.as_mut_slice());
    if !ok {
        wipe_vec(&mut plaintext);
        return None;
    }
    if plaintext.len() != PLAINTEXT_LEN {
        wipe_vec(&mut plaintext);
        return None;
    }
    if plaintext[0] != KILL_VERSION_V1 {
        wipe_vec(&mut plaintext);
        return None;
    }
    Some(Secret::new(plaintext))
}

/// Splits an authenticated payload into the device id and the replay token.
fn parse_payload(buf: &[u8]) -> (r: Option<ParsedKill>)
    requires
        buf@.len() == PLAINTEXT_LEN,
    ensures
        r is Some,
        r->Some_0.device_id@ == buf@.subrange(1, 33),
        r->Some_0.replay.spec_value() == u64_from_be(buf@.subrange(33, 41)),
{
    let device_id: [u8; 32] = array_from(buf, 1);
    let (_, tail) = buf.split_at(33);
    assert(tail@ =~= buf@.subrange(33, 41));
    match ReplayToken::from_bytes(tail) {
        Some(replay) => Some(ParsedKill { device_id, replay }),
        None => None,
    }
}

/// Verifies a kill blob for this device. The blob is authenticated under the
/// device's kill key with the kill associated data; its payload must have
/// the protocol's length and version and name this device, compared in
/// constant time. A blob made for this device from the same root key always
/// verifies, and yields the replay token it was made with.
pub fn verify_kill_blob(registry: &DeviceRegistry, root_key: &GuardedKey32, blob: &[u8]) -> (r:
    Option<KillDecision>)
    ensures
        r is Some <==> kill_verdict(registry.id(), registry.fingerprint(), root_key@, blob@)
            is Some,
        r matches Some(d) ==> Some(d.replay.spec_value()) == kill_verdict(
            registry.id(),
            registry.fingerprint(),
            root_key@,
            blob@,
        ),
        forall|replay: u64, nonce: Seq<u8>|
            nonce.len() == NONCE_LEN && blob@.len() == BLOB_LEN && #[trigger] kill_blob(
                root_key@,
                registry.fingerprint(),
                registry.id(),
                replay,
                nonce,
            ) == blob@ ==> r is Some && r->Some_0.replay.spec_value() == replay,
{
    let mut kill_key = GuardedKey32::zeroed();
    match derive_key(root_key, Purpose::Recovery, registry.device_fingerprint(), &mut kill_key) {
        Ok(()) => {},
        Err(()) => {
            return None;
        },
    }
    let aad = build_kill_aad(registry);
    let device_id = registry.device_id();
    let plaintext = decrypt_blob(&kill_key, blob, &aad);
    proof {
        assert forall|replay: u64, nonce: Seq<u8>|
            nonce.len() == NONCE_LEN && blob@.len() == BLOB_LEN && #[trigger] kill_blob(
                root_key@,
                registry.fingerprint(),
                registry.id(),
                replay,
                nonce,
            ) == blob@ implies plaintext is Some && plaintext->Some_0@ == kill_payload(
            registry.id(),
            replay,
        ) by {
            let pt = kill_payload(registry.id(), replay);
            let sealed = aes256_gcm_seal(kill_key@, nonce, pt, aad@);
            assert(blob@ == nonce + sealed);
            assert(blob@.subrange(0, NONCE_LEN as int) =~= nonce);
            assert(blob@.subrange(NONCE_LEN as int, blob@.len() as int) =~= sealed);
        }
    }
    let plaintext = match plaintext {
        Some(p) => p,
        None => {
            return None;
        },
    };
    let parsed = match parse_payload(plaintext.borrow().as_slice()) {
        Some(p) => p,
        None => {
            return None;
        },
    };
    proof {
        assert forall|replay: u64|
            plaintext@ == #[trigger] kill_payload(registry.id(), replay) implies parsed.device_id@
            == registry.id() && parsed.replay.spec_value() == replay by {
            let pt = kill_payload(registry.id(), replay);
            assert(pt.subrange(1, 33) =~= registry.id());
            assert(pt.subrange(33, 41) =~= u64_be(replay));
            lemma_u64_be_roundtrip(replay);
        }
    }
    if !ct_eq_bytes(&parsed.device_id, &device_id) {
        return None;
    }
    Some(KillDecision { replay: parsed.replay })
}

} // verus!
