//! Assembly of decoded audio frames into PCM samples.

use vstd::prelude::*;
use crate::keystore::master::KillFuse;
use crate::media::errors::MediaError;
use crate::media::limits::MAX_AUDIO_SAMPLES;

verus! {

/// Decoded audio.
pub struct DecodedAudio {
    /// The samples.
    pub pcm: Vec<i16>,
    /// Samples per second.
    pub sample_rate: u32,
    /// Number of channels.
    pub channels: u8,
}

/// The sample that two bytes encode, least significant first.
pub open spec fn i16_le(lo: u8, hi: u8) -> i16 {
    let v = hi as int * 256 + lo as int;
    if v >= 32768 {
        (v - 65536) as i16
    } else {
        v as i16
    }
}

/// The samples of a frame of even length.
pub open spec fn pcm_of(bytes: Seq<u8>) -> Seq<i16> {
    Seq::new(bytes.len() / 2, |i: int| i16_le(bytes[2 * i], bytes[2 * i + 1]))
}

/// The samples of the first `n` frames, in order.
pub open spec fn pcm_upto(frames: Seq<Vec<u8>>, n: nat) -> Seq<i16>
    decreases n,
{
    if n == 0 {
        Seq::empty()
    } else {
        pcm_upto(frames, (n - 1) as nat) + pcm_of(frames[n - 1]@)
    }
}

/// Every frame has an even number of bytes.
pub open spec fn frames_whole(frames: Seq<Vec<u8>>) -> bool {
    forall|i: int| 0 <= i < frames.len() ==> frames[i]@.len() % 2 == 0
}

/// The number of samples only grows with the number of frames.
pub proof fn lemma_pcm_upto_grows(frames: Seq<Vec<u8>>, m: nat, n: nat)
    requires
        m <= n,
    ensures
        pcm_upto(frames, m).len() <= pcm_upto(frames, n).len(),
    decreases n,
{
    if m < n {
        lemma_pcm_upto_grows(frames, m, (n - 1) as nat);
    }
}

/// The audio that the frames assemble to, if they do.
pub open spec fn audio_accepts(killed: bool, frames: Seq<Vec<u8>>, rate: u32, channels: u16)
    -> bool {
    &&& !killed
    &&& frames_whole(frames)
    &&& pcm_upto(frames, frames.len()).len() <= MAX_AUDIO_SAMPLES
    &&& rate != 0
    &&& channels != 0
}

fn sample(lo: u8, hi: u8) -> (r: i16)
    ensures
        r == i16_le(lo, hi),
{
    let v: i32 = hi as i32 * 256 + lo as i32;
    if v >= 32768 {
        (v - 65536) as i16
    } else {
        v as i16
    }
}

/// Assembles decoded audio frames, little-endian 16-bit samples, into one
/// track. Refused once the fuse is blown, for a frame with an odd number of
/// bytes, for more samples than the limit, and without a sample rate or
/// channels. The channel count is kept modulo 256.
pub fn decode_audio(fuse: &KillFuse, frames: &[Vec<u8>], rate: u32, channels: u16) -> (r: Result<
    DecodedAudio,
    MediaError,
>)
    ensures
        r is Ok <==> audio_accepts(fuse.killed(), frames@, rate, channels),
        r matches Ok(a) ==> a.pcm@ == pcm_upto(frames@, frames@.len()) && a.sample_rate == rate
            && a.channels == channels % 256,
        r is Err ==> r->Err_0 == MediaError::DecodeFailed,
{
    if fuse.is_killed() {
        return Err(MediaError::DecodeFailed);
    }
    let mut pcm: Vec<i16> = Vec::new();
    let n: usize = frames.len();
    let mut f: usize = 0;
    while f < n
        invariant
            f <= n,
            n == frames@.len(),
            pcm@ == pcm_upto(frames@, f as nat),
            pcm@.len() <= MAX_AUDIO_SAMPLES,
            forall|i: int| 0 <= i < f ==> frames@[i]@.len() % 2 == 0,
        decreases n - f,
    {
        let data = &frames[f];
        let len: usize = data.len();
        if len % 2 != 0 {
            return Err(MediaError::DecodeFailed);
        }
        let count: usize = len / 2;
        let mut k: usize = 0;
        while k < count
            invariant
                k <= count,
                count == len / 2,
                len == data@.len(),
                len % 2 == 0,
                f < n,
                n == frames@.len(),
                *data == frames@[f as int],
                pcm@ == pcm_upto(frames@, f as nat) + pcm_of(data@).subrange(0, k as int),
                pcm@.len() <= MAX_AUDIO_SAMPLES,
            decreases count - k,
        {
            if pcm.len() >= MAX_AUDIO_SAMPLES {
                proof {
                    lemma_pcm_upto_grows(frames@, (f + 1) as nat, n as nat);
                }
                return Err(MediaError::DecodeFailed);
            }
            pcm.push(sample(data[2 * k], data[2 * k + 1]));
            assert(pcm@ =~= pcm_upto(frames@, f as nat) + pcm_of(data@).subrange(0, k + 1));
            k += 1;
        }
        assert(pcm_of(data@).subrange(0, count as int) =~= pcm_of(data@));
        f += 1;
    }
    if rate == 0 || channels == 0 {
        return Err(MediaError::DecodeFailed);
    }
    Ok(DecodedAudio { pcm, sample_rate: rate, channels: (channels % 256) as u8 })
}

} // verus!
