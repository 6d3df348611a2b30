//! Device identity: a stable id, its fingerprint and the kill marker.

pub mod fingerprint;
pub mod registry;

pub use fingerprint::DeviceFingerprint;
pub use registry::{DeviceRegistry, RegistryError};
