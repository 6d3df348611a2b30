//! The generator of kill blobs, for the admin side.

use vstd::prelude::*;
use crate::crypto::aes_gcm::{seal, NONCE_LEN};
use crate::crypto::derive::{derive_key, Purpose};
use crate::crypto::kem::os_random_fill;
use crate::device::registry::DeviceRegistry;
use crate::encoding::{copy_into, u64_to_be_bytes};
use crate::kill::protocol::build_kill_aad;
use crate::kill::strategy::{kill_blob, kill_payload, BLOB_LEN, KILL_VERSION_V1, PLAINTEXT_LEN};
use crate::memory::guard::GuardedKey32;
use crate::memory::zeroize::{wipe_vec, Secret};

verus! {

/// Whom to kill, and the replay token of the order.
pub struct KillRequest {
    /// The id of the device to kill.
    pub target_device_id: [u8; 32],
    /// The replay token; it must exceed every token the device has taken.
    pub replay: u64,
}

/// Makes the kill blob of a request under a given nonce: the nonce, then
/// the ciphertext and tag of the payload under the kill key of the
/// registry's device.
pub fn generate_kill_blob_with_nonce(
    root_key: &GuardedKey32,
    registry: &DeviceRegistry,
    req: &KillRequest,
    nonce: &[u8; 12],
) -> (r: Option<Secret>)
    ensures
        r is Some,
        r->Some_0.is_live(),
        r->Some_0@.len() == BLOB_LEN,
        r->Some_0@ == kill_blob(
            root_key@,
            registry.fingerprint(),
            req.target_device_id@,
            req.replay,
            nonce@,
        ),
{
    let mut kill_key = GuardedKey32::zeroed();
    match derive_key(root_key, Purpose::Recovery, registry.device_fingerprint(), &mut kill_key) {
        Ok(()) => {},
        Err(()) => {
            return None;
        },
    }
    let mut plaintext: Vec<u8> = Vec::with_capacity(PLAINTEXT_LEN);
    plaintext.push(KILL_VERSION_V1);
    plaintext.extend_from_slice(&req.target_device_id);
    let replay = u64_to_be_bytes(req.replay);
    plaintext.extend_from_slice(&replay);
    assert(plaintext@ =~= kill_payload(req.target_device_id@, req.replay));
    let aad = build_kill_aad(registry);
    let mut out: Vec<u8> = vec![0u8; 69];
    let (head, tail) = out.as_mut_slice().split_at_mut(NONCE_LEN);
    copy_into(head, 0, nonce);
    proof {
        crate::encoding::lemma_spliced_whole(head@, nonce@);
    }
    let sealed = seal(&kill_key, nonce, plaintext.as_slice(), &aad, tail);
    wipe_vec(&mut plaintext);
    match sealed {
        Ok(()) => Some(Secret::new(out)),
        Err(()) => {
            wipe_vec(&mut out);
            None
        },
    }
}

/// Makes the kill blob of a request under a fresh random nonce. Fails only
/// if no randomness can be had.
pub fn generate_kill_blob(root_key: &GuardedKey32, registry: &DeviceRegistry, req: &KillRequest)
    -> (r:
    Option<Secret>)
    ensures
        r matches Some(blob) ==> blob.is_live() && blob@.len() == BLOB_LEN && blob@ == kill_blob(
            root_key@,
            registry.fingerprint(),
            req.target_device_id@,
            req.replay,
            blob@.subrange(0, NONCE_LEN as int),
        ),
{
    let mut nonce = [0u8; 12];
    if !os_random_fill(&mut nonce) {
        return None;
    }
    let r = generate_kill_blob_with_nonce(root_key, registry, req, &nonce);
    proof {
        if r is Some {
            assert(r->Some_0@.subrange(0, NONCE_LEN as int) =~= nonce@);
        }
    }
    r
}

} // verus!
