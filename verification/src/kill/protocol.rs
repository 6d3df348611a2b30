//! The associated data of kill blobs.

use vstd::prelude::*;
use crate::device::registry::DeviceRegistry;
use crate::encoding::{u64_be, u64_to_be_bytes};

verus! {

/// Length of the associated data of a kill blob.
pub const KILL_AAD_LEN: usize = 24;

/// The protocol label, `rcxcloud-kill-v1`.
pub open spec fn kill_label() -> Seq<u8> {
    seq![
        0x72u8, 0x63u8, 0x78u8, 0x63u8, 0x6cu8, 0x6fu8, 0x75u8, 0x64u8,
        0x2du8, 0x6bu8, 0x69u8, 0x6cu8, 0x6cu8, 0x2du8, 0x76u8, 0x31u8,
    ]
}

/// The associated data of kill blobs for a device: the protocol label, then
/// the device fingerprint, big-endian.
pub open spec fn kill_aad(fingerprint: u64) -> Seq<u8> {
    kill_label() + u64_be(fingerprint)
}

/// Builds the associated data of kill blobs for this device.
pub fn build_kill_aad(registry: &DeviceRegistry) -> (r: [u8; 24])
    ensures
        r@ == kill_aad(registry.fingerprint()),
{
    let f = u64_to_be_bytes(registry.device_fingerprint());
    let r: [u8; 24] = [
        0x72u8, 0x63u8, 0x78u8, 0x63u8, 0x6cu8, 0x6fu8, 0x75u8, 0x64u8,
        0x2du8, 0x6bu8, 0x69u8, 0x6cu8, 0x6cu8, 0x2du8, 0x76u8, 0x31u8,
        f[0], f[1], f[2], f[3], f[4], f[5], f[6], f[7],
    ];
    assert(r@ =~= kill_aad(registry.fingerprint()));
    r
}

} // verus!
