//! Sanitization of decoded video.

use vstd::prelude::*;
use crate::media::decode::video::DecodedVideo;
use crate::media::errors::MediaError;

verus! {

/// Sanitized video frames, without subtitles.
pub struct SafeVideoCore {
    /// The frames, RGBA.
    pub frames: Vec<Vec<u8>>,
    /// Frame width.
    pub width: u32,
    /// Frame height.
    pub height: u32,
}

/// Hands decoded video on unchanged, unless it has no width or no height.
pub fn sanitize_video(decoded: DecodedVideo) -> (r: Result<SafeVideoCore, MediaError>)
    ensures
        r is Ok <==> decoded.width != 0 && decoded.height != 0,
        r matches Ok(v) ==> v.frames == decoded.frames && v.width == decoded.width && v.height
            == decoded.height,
        r is Err ==> r->Err_0 == MediaError::SanitizationFailed,
{
    if decoded.width == 0 || decoded.height == 0 {
        return Err(MediaError::SanitizationFailed);
    }
    Ok(SafeVideoCore { frames: decoded.frames, width: decoded.width, height: decoded.height })
}

} // verus!
