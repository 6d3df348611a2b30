//! Decoding of subtitles, best effort.

use vstd::prelude::*;
use crate::media::errors::MediaError;
use crate::media::subtitles::SubtitleCue;

verus! {

/// Decodes the subtitles of a stream. No subtitle format is decoded: the
/// result is always empty.
pub fn decode_subtitles(_input: &[u8]) -> (r: Result<Vec<SubtitleCue>, MediaError>)
    ensures
        r is Ok,
        r->Ok_0@.len() == 0,
{
    Ok(Vec::new())
}

} // verus!
