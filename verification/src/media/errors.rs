//! Errors of the media pipeline.

use vstd::prelude::*;

verus! {

/// Why media was refused.
#[derive(Debug, Clone, Copy, PartialEq, Eq, Structural)]
pub enum MediaError {
    /// The input is larger than the pipeline takes.
    InputTooLarge,
    /// The format is not supported.
    UnsupportedFormat,
    /// The container could not be taken apart within the limits.
    DemuxFailed,
    /// A stream could not be decoded within the limits.
    DecodeFailed,
    /// The decoded media is not fit to hand on.
    SanitizationFailed,
}

} // verus!
