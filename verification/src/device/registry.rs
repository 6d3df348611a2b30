//! The device registry: identity record and kill marker.

use vstd::prelude::*;
use crate::device::fingerprint::{fingerprint_of, DeviceFingerprint};
use crate::encoding::{u64_be, u64_from_be, u64_from_be_bytes, u64_to_be_bytes};
use crate::integrity::hash::{hash_sha256, sha256};
use crate::keystore::master::KillFuse;
use crate::logging::encrypted::{record, EncryptedLog, LogFile, LogRoot};

verus! {

/// Length of the identity record: the device id and the fingerprint.
pub const IDENTITY_LEN: usize = 40;

/// The record that marks a device as killed: the ASCII bytes `KILLED`.
pub open spec fn killed_marker() -> Seq<u8> {
    seq![0x4bu8, 0x49u8, 0x4cu8, 0x4cu8, 0x45u8, 0x44u8]
}

/// Why the registry failed.
#[derive(Debug, Clone, Copy, PartialEq, Eq, Structural)]
pub enum RegistryError {
    /// A log could not be opened, read or written.
    Storage,
    /// The identity record does not have its fixed length.
    Corrupt,
}

/// The identity of this device.
pub struct DeviceRegistry {
    device_id: [u8; 32],
    fingerprint: DeviceFingerprint,
}

/// The identity record of a device: its id, then its fingerprint big-endian.
pub open spec fn identity_record(id: Seq<u8>, fingerprint: u64) -> Seq<u8> {
    id + u64_be(fingerprint)
}

/// Whether the device counts as killed: the fuse is blown, or the kill-marker
/// file is missing or holds anything.
pub open spec fn device_killed(killed: bool, marker_file: Option<Seq<u8>>) -> bool {
    killed || match marker_file {
        Some(bytes) => bytes.len() > 0,
        None => true,
    }
}

impl DeviceRegistry {
    /// The device id.
    pub closed spec fn id(&self) -> Seq<u8> {
        self.device_id@
    }

    /// The device fingerprint.
    pub closed spec fn fingerprint(&self) -> u64 {
        self.fingerprint.value()
    }

    /// Loads the identity of this device, or creates it on first use from
    /// the SHA-256 digest of `device_material` and stores it.
    pub fn load_or_init(fuse: &KillFuse, root: &mut LogRoot, device_material: &[u8]) -> (r:
        Result<Self, RegistryError>)
        ensures
            final(root).same_but(old(root), LogFile::Identity),
            fuse.killed() || old(root).file(LogFile::Identity) is None ==> r is Err && r->Err_0
                == RegistryError::Storage && final(root).same_files(old(root)),
            !fuse.killed() ==> match old(root).file(LogFile::Identity) {
                None => true,
                Some(stored) => if stored.len() == 0 {
                    &&& r is Ok
                    &&& r->Ok_0.id() == sha256(device_material@)
                    &&& r->Ok_0.fingerprint() == fingerprint_of(device_material@)
                    &&& final(root).file(LogFile::Identity) == Some(
                        identity_record(r->Ok_0.id(), r->Ok_0.fingerprint()),
                    )
                } else if stored.len() != IDENTITY_LEN {
                    &&& r is Err
                    &&& r->Err_0 == RegistryError::Corrupt
                    &&& final(root).same_files(old(root))
                } else {
                    &&& r is Ok
                    &&& r->Ok_0.id() == stored.subrange(0, 32)
                    &&& r->Ok_0.fingerprint() == u64_from_be(stored.subrange(32, 40))
                    &&& final(root).same_files(old(root))
                },
            },
    {
        let id_log = match EncryptedLog::open_device_identity(fuse, root) {
            Ok(log) => log,
            Err(()) => {
                return Err(RegistryError::Storage);
            },
        };
        match id_log.read_fixed(root) {
            Ok(Some(buf)) => {
                return Self::decode_identity(buf.as_slice());
            },
            Ok(None) => {},
            Err(()) => {
                return Err(RegistryError::Storage);
            },
        }
        let hash = hash_sha256(device_material);
        let fingerprint = DeviceFingerprint::from_material(device_material);
        let mut buf: Vec<u8> = Vec::with_capacity(40);
        let digest: &[u8; 32] = hash.as_ref();
        buf.extend_from_slice(digest);
        let fp = u64_to_be_bytes(fingerprint.as_u64());
        buf.extend_from_slice(&fp);
        match id_log.write_fixed(fuse, root, buf.as_slice()) {
            Ok(()) => {},
            Err(()) => {
                return Err(RegistryError::Storage);
            },
        }
        Ok(DeviceRegistry { device_id: hash.0, fingerprint })
    }

    /// The identity of the device with the given id; the fingerprint is the
    /// first eight bytes of the id, read as a big-endian integer.
    pub fn from_device_id(device_id: [u8; 32]) -> (r: Self)
        ensures
            r.id() == device_id@,
            r.fingerprint() == u64_from_be(device_id@.subrange(0, 8)),
    {
        let fingerprint = DeviceFingerprint::from_u64(u64_from_be_bytes(&device_id, 0));
        DeviceRegistry { device_id, fingerprint }
    }

    /// The device id.
    pub fn device_id(&self) -> (r: [u8; 32])
        ensures
            r@ == self.id(),
    {
        self.device_id
    }

    /// The device fingerprint.
    pub fn device_fingerprint(&self) -> (r: u64)
        ensures
            r == self.fingerprint(),
    {
        self.fingerprint.as_u64()
    }

    /// Whether this device is killed: true once the kill-marker file holds
    /// anything, and whenever the file cannot be opened.
    pub fn is_killed(&self, fuse: &KillFuse, root: &LogRoot) -> (r: bool)
        ensures
            r == device_killed(fuse.killed(), root.file(LogFile::KillMarker)),
    {
        let log = match EncryptedLog::open_device_kill_log(fuse, root) {
            Ok(l) => l,
            Err(()) => {
                return true;
            },
        };
        log.has_any_content(root)
    }

    /// Appends the `KILLED` record to the kill-marker file.
    pub fn mark_this_device_killed(&self, fuse: &KillFuse, root: &mut LogRoot) -> (r: Result<
        (),
        RegistryError,
    >)
        ensures
            r is Ok <==> !fuse.killed() && old(root).file(LogFile::KillMarker) is Some,
            r is Ok ==> final(root).file(LogFile::KillMarker) == Some(
                old(root).file(LogFile::KillMarker)->Some_0 + record(killed_marker()),
            ),
            r is Err ==> r->Err_0 == RegistryError::Storage && final(root).same_files(old(root)),
            final(root).same_but(old(root), LogFile::KillMarker),
    {
        let log = match EncryptedLog::open_device_kill_log(fuse, root) {
            Ok(l) => l,
            Err(()) => {
                return Err(RegistryError::Storage);
            },
        };
        let marker: [u8; 6] = [0x4bu8, 0x49u8, 0x4cu8, 0x4cu8, 0x45u8, 0x44u8];
        assert(marker@ =~= killed_marker());
        match log.append_record(fuse, root, &marker) {
            Ok(()) => Ok(()),
            Err(()) => Err(RegistryError::Storage),
        }
    }

    /// Decodes an identity record: the device id (32 bytes), then the
    /// fingerprint (8 bytes, big-endian).
    pub fn decode_identity(buf: &[u8]) -> (r: Result<Self, RegistryError>)
        ensures
            r is Ok <==> buf@.len() == IDENTITY_LEN,
            r matches Ok(reg) ==> reg.id() == buf@.subrange(0, 32) && reg.fingerprint()
                == u64_from_be(buf@.subrange(32, 40)),
            r is Err ==> r->Err_0 == RegistryError::Corrupt,
    {
        if buf.len() != 40 {
            return Err(RegistryError::Corrupt);
        }
        let mut id = [0u8; 32];
        let mut i: usize = 0;
        while i < 32
            invariant
                i <= 32,
                buf@.len() == 40,
                forall|j: int| 0 <= j < i ==> id@[j] == buf@[j],
            decreases 32 - i,
        {
            id[i] = buf[i];
            i += 1;
        }
        assert(id@ =~= buf@.subrange(0, 32));
        let fingerprint = DeviceFingerprint::from_u64(u64_from_be_bytes(buf, 32));
        Ok(DeviceRegistry { device_id: id, fingerprint })
    }
}

} // verus!
