//! Hashing of non-secret data and verification of key bindings.

pub mod hash;
pub mod verify;

pub use hash::{hash_sha256, HashOutput};
pub use verify::{verify_key_integrity, IntegrityError};
