//! Containers and their streams.

pub mod demux;
