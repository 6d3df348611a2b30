//! The irreversible kill: verification, replay protection, execution.

pub mod executor;
pub mod generate;
pub mod protocol;
pub mod replay;
pub mod strategy;

pub use executor::{execute_kill, KillError};
pub use generate::{generate_kill_blob, KillRequest};
pub use protocol::build_kill_aad;
pub use strategy::{verify_kill_blob, KillDecision};
