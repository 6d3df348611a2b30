//! Append-only storage and the events of the core.

pub mod encrypted;
pub mod events;
