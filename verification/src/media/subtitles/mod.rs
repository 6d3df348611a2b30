//! Text subtitles.

pub mod decode;

use vstd::prelude::*;

verus! {

/// One subtitle and when it shows.
#[derive(Clone, Debug, PartialEq, Eq)]
pub struct SubtitleCue {
    /// Start, in milliseconds.
    pub start_ms: u64,
    /// End, in milliseconds.
    pub end_ms: u64,
    /// The text.
    pub text: String,
}

} // verus!
