//! Resource limits of the media pipeline.

use vstd::prelude::*;

verus! {

/// Largest input: 256 MiB.
pub const MAX_MEDIA_BYTES: usize = 268435456;

/// Largest number of decoded video frames.
pub const MAX_VIDEO_FRAMES: usize = 2000;

/// Largest frame width.
pub const MAX_WIDTH: u32 = 4096;

/// Largest frame height.
pub const MAX_HEIGHT: u32 = 4096;

/// Largest number of audio samples per track: ten minutes at 48 kHz.
pub const MAX_AUDIO_SAMPLES: usize = 28800000;

/// Whether an input of `len` bytes is within the limit.
pub fn check_media_size(len: usize) -> (r: bool)
    ensures
        r == (len <= MAX_MEDIA_BYTES),
{
    len <= MAX_MEDIA_BYTES
}

} // verus!
