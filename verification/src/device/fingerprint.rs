//! The 64-bit fingerprint of a device.

use vstd::prelude::*;
use crate::encoding::{u64_be, u64_from_be, u64_from_be_bytes, u64_to_be_bytes};
use crate::integrity::hash::{hash_sha256, sha256};

verus! {

/// The fingerprint of device material: the first eight bytes of its SHA-256
/// digest, read as a big-endian integer.
pub open spec fn fingerprint_of(material: Seq<u8>) -> u64 {
    u64_from_be(sha256(material).subrange(0, 8))
}

/// A stable, non-secret fingerprint of a device.
#[derive(Clone, Copy, PartialEq, Eq, Structural)]
pub struct DeviceFingerprint(u64);

impl DeviceFingerprint {
    /// The numeric value.
    pub closed spec fn value(self) -> u64 {
        self.0
    }

    /// The fingerprint of device material.
    pub fn from_material(material: &[u8]) -> (r: Self)
        ensures
            r.value() == fingerprint_of(material@),
    {
        let hash = hash_sha256(material);
        let digest: &[u8; 32] = hash.as_ref();
        DeviceFingerprint(u64_from_be_bytes(digest, 0))
    }

    /// The fingerprint with a stored value.
    pub fn from_u64(value: u64) -> (r: Self)
        ensures
            r.value() == value,
    {
        DeviceFingerprint(value)
    }

    /// The value in eight big-endian bytes.
    pub fn to_be_bytes(self) -> (r: [u8; 8])
        ensures
            r@ == u64_be(self.value()),
    {
        u64_to_be_bytes(self.0)
    }

    /// The numeric value.
    pub fn as_u64(self) -> (r: u64)
        ensures
            r == self.value(),
    {
        self.0
    }
}

} // verus!
