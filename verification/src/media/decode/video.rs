//! Assembly of decoded video frames.

use vstd::prelude::*;
use crate::keystore::master::KillFuse;
use crate::media::errors::MediaError;
use crate::media::limits::{MAX_HEIGHT, MAX_VIDEO_FRAMES, MAX_WIDTH};

verus! {

/// Decoded video.
pub struct DecodedVideo {
    /// The frames, RGBA.
    pub frames: Vec<Vec<u8>>,
    /// Frame width.
    pub width: u32,
    /// Frame height.
    pub height: u32,
}

/// Whether frames of the given size and number are within the limits.
pub open spec fn video_accepts(killed: bool, width: u32, height: u32, frame_count: nat) -> bool {
    &&& !killed
    &&& 0 < width <= MAX_WIDTH
    &&& 0 < height <= MAX_HEIGHT
    &&& frame_count <= MAX_VIDEO_FRAMES
}

/// Takes decoded video frames as one track. Refused once the fuse is blown,
/// for frames without width or height or larger than the limits, and for
/// more frames than the limit.
pub fn decode_video(fuse: &KillFuse, width: u32, height: u32, frames: Vec<Vec<u8>>) -> (r: Result<
    DecodedVideo,
    MediaError,
>)
    ensures
        r is Ok <==> video_accepts(fuse.killed(), width, height, frames@.len()),
        r matches Ok(v) ==> v.frames == frames && v.width == width && v.height == height,
        r is Err ==> r->Err_0 == MediaError::DecodeFailed,
{
    if fuse.is_killed() {
        return Err(MediaError::DecodeFailed);
    }
    if width == 0 || height == 0 || width > MAX_WIDTH || height > MAX_HEIGHT {
        return Err(MediaError::DecodeFailed);
    }
    if frames.len() > MAX_VIDEO_FRAMES {
        return Err(MediaError::DecodeFailed);
    }
    Ok(DecodedVideo { frames, width, height })
}

} // verus!
