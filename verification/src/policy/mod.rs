//! Capabilities and their enforcement.

pub mod capability;
pub mod enforcement;

pub use capability::Capability;
pub use enforcement::{CapabilitySet, Operation, PolicyEnforcer};
