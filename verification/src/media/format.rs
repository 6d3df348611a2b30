//! The kinds of media the pipeline handles.

use vstd::prelude::*;

verus! {

/// What the caller expects the input to be.
#[derive(Debug, Clone, Copy, PartialEq, Eq, Structural)]
pub enum MediaFormat {
    /// An audio track.
    Audio,
    /// A video track, with subtitles if there are any.
    Video,
}

} // verus!
