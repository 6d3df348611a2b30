//! Stateless cryptographic primitives and the derivation hierarchy.

pub mod aad;
pub mod aes_gcm;
pub mod derive;
pub mod file;
pub mod kdf_argon2;
pub mod kem;
pub mod nonce;

pub use aad::{Aad, AAD_VERSION_V1};
pub use derive::{derive_key, Purpose};
pub use kdf_argon2::{KdfError, Params};
pub use nonce::{derive_nonce, NONCE_LEN};
