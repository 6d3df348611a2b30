//! The media pipeline: size check, demux, decode, sanitize.
//!
//! Containers are read and streams are decoded outside this crate; the
//! functions here take what was read and apply the limits and checks.

pub mod container;
pub mod decode;
pub mod errors;
pub mod format;
pub mod limits;
pub mod output;
pub mod sanitize;
pub mod subtitles;

use vstd::prelude::*;
use decode::audio::DecodedAudio;
use decode::video::DecodedVideo;
use errors::MediaError;
use limits::{check_media_size, MAX_MEDIA_BYTES};
use output::{SanitizedAudio, SanitizedMedia, SanitizedVideo};
use subtitles::SubtitleCue;

verus! {

/// What was decoded from an input, for the last stage of the pipeline.
pub enum Decoded {
    /// An audio track.
    Audio(DecodedAudio),
    /// A video track and the bytes of its subtitle stream.
    Video(DecodedVideo, Vec<u8>),
}

/// Finishes the pipeline for an input of `input_len` bytes: the size limit
/// is applied first, then the decoded media is sanitized. Subtitles that
/// cannot be decoded are left out.
pub fn process_media(input_len: usize, decoded: Decoded) -> (r: Result<SanitizedMedia, MediaError>)
    ensures
        input_len > MAX_MEDIA_BYTES ==> r is Err && r->Err_0 == MediaError::InputTooLarge,
        input_len <= MAX_MEDIA_BYTES ==> match decoded {
            Decoded::Audio(a) => if a.sample_rate != 0 && a.channels != 0 {
                r matches Ok(SanitizedMedia::Audio(s)) && s.pcm == a.pcm && s.sample_rate
                    == a.sample_rate && s.channels == a.channels
            } else {
                r is Err && r->Err_0 == MediaError::SanitizationFailed
            },
            Decoded::Video(v, _) => if v.width != 0 && v.height != 0 {
                r matches Ok(SanitizedMedia::Video(s)) && s.frames == v.frames && s.width
                    == v.width && s.height == v.height && s.subtitles@.len() == 0
            } else {
                r is Err && r->Err_0 == MediaError::SanitizationFailed
            },
        },
{
    if !check_media_size(input_len) {
        return Err(MediaError::InputTooLarge);
    }
    match decoded {
        Decoded::Audio(a) => {
            let safe = sanitize::audio::sanitize_audio(a)?;
            Ok(
                SanitizedMedia::Audio(
                    SanitizedAudio {
                        pcm: safe.pcm,
                        sample_rate: safe.sample_rate,
                        channels: safe.channels,
                    },
                ),
            )
        },
        Decoded::Video(v, subtitle_bytes) => {
            let safe_core = sanitize::video::sanitize_video(v)?;
            let subtitles: Vec<SubtitleCue> = match subtitles::decode::decode_subtitles(
                subtitle_bytes.as_slice(),
            ) {
                Ok(s) => s,
                Err(_) => Vec::new(),
            };
            Ok(
                SanitizedMedia::Video(
                    SanitizedVideo {
                        frames: safe_core.frames,
                        width: safe_core.width,
                        height: safe_core.height,
                        subtitles,
                    },
                ),
            )
        },
    }
}

} // verus!
