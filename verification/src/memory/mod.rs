//! Zeroizing containers for secret material.

pub mod guard;
pub mod zeroize;

pub use guard::{GuardedBox, GuardedKey32};
pub use zeroize::{all_zero, wipe_bytes, wipe_vec, HeapOnly, Secret};
