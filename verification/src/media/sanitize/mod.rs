//! Last checks on decoded media.

pub mod audio;
pub mod video;
