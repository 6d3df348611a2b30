//! Sanitization of decoded audio.

use vstd::prelude::*;
use crate::media::decode::audio::DecodedAudio;
use crate::media::errors::MediaError;

verus! {

/// Hands decoded audio on unchanged, unless it has no sample rate or no
/// channels.
pub fn sanitize_audio(decoded: DecodedAudio) -> (r: Result<DecodedAudio, MediaError>)
    ensures
        r is Ok <==> decoded.sample_rate != 0 && decoded.channels != 0,
        r matches Ok(a) ==> a == decoded,
        r is Err ==> r->Err_0 == MediaError::SanitizationFailed,
{
    if decoded.sample_rate == 0 {
        return Err(MediaError::SanitizationFailed);
    }
    if decoded.channels == 0 {
        return Err(MediaError::SanitizationFailed);
    }
    Ok(decoded)
}

} // verus!
