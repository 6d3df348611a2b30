//! The boundary through which applications reach the core.

pub mod api;
pub mod entry;
pub mod error;
pub mod handle;

pub use api::{Core, CoreError};
pub use entry::Bridge;
pub use error::BridgeError;
pub use handle::CoreHandle;
