//! Sanitized media, as handed to the application.

use vstd::prelude::*;
use crate::media::subtitles::SubtitleCue;

verus! {

/// Canonical PCM audio.
pub struct SanitizedAudio {
    /// The samples.
    pub pcm: Vec<i16>,
    /// Samples per second.
    pub sample_rate: u32,
    /// Number of channels.
    pub channels: u8,
}

/// Canonical video.
pub struct SanitizedVideo {
    /// The frames, RGBA.
    pub frames: Vec<Vec<u8>>,
    /// Frame width.
    pub width: u32,
    /// Frame height.
    pub height: u32,
    /// The subtitles that could be decoded.
    pub subtitles: Vec<SubtitleCue>,
}

/// Sanitized media of either kind.
#[non_exhaustive]
pub enum SanitizedMedia {
    /// Audio.
    Audio(SanitizedAudio),
    /// Video.
    Video(SanitizedVideo),
}

} // verus!
