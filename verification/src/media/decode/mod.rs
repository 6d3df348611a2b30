//! Assembly of decoded streams within the limits.

pub mod audio;
pub mod video;
