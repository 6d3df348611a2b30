//! Secure core of a cloud-storage client: guarded key material, a keystore
//! with an irreversible kill fuse, deterministic key and nonce derivation,
//! authenticated chunk encryption and the remote-kill protocol.

pub mod bridge;
pub mod crypto;
pub mod device;
pub mod encoding;
pub mod integrity;
pub mod keystore;
pub mod kill;
pub mod logging;
pub mod media;
pub mod memory;
pub mod policy;
