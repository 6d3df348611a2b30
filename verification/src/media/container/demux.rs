//! Sorting of container packets into streams, within the limits.

use vstd::prelude::*;
use crate::keystore::master::KillFuse;
use crate::media::errors::MediaError;

verus! {

/// Most bytes of audio taken from a container: 64 MiB.
pub const MAX_AUDIO_BYTES: usize = 67108864;

/// Most bytes of video taken from a container: 128 MiB.
pub const MAX_VIDEO_BYTES: usize = 134217728;

/// Most bytes of subtitles taken from a container: 4 MiB.
pub const MAX_SUBTITLE_BYTES: usize = 4194304;

/// Most audio packets taken from a container.
pub const MAX_AUDIO_PACKETS: usize = 100000;

/// Most video packets taken from a container.
pub const MAX_VIDEO_PACKETS: usize = 200000;

/// Most subtitle packets taken from a container.
pub const MAX_SUBTITLE_PACKETS: usize = 50000;

/// The kind of stream a packet belongs to.
#[derive(Debug, Clone, Copy, PartialEq, Eq, Structural)]
pub enum StreamKind {
    /// Audio.
    Audio,
    /// Video.
    Video,
    /// Subtitles.
    Subtitle,
    /// Anything else; such packets are passed over.
    Other,
}

/// One packet of a container.
pub struct Packet {
    /// The stream the packet belongs to.
    pub kind: StreamKind,
    /// The payload.
    pub data: Vec<u8>,
}

/// The streams of a container, each as the bytes of its packets in order.
pub struct DemuxedStreams {
    /// The audio stream.
    pub audio: Vec<u8>,
    /// The video stream.
    pub video: Vec<u8>,
    /// The subtitle stream.
    pub subtitles: Vec<u8>,
}

/// The bytes of the packets of one kind among the first `n`, in order.
pub open spec fn stream_upto(packets: Seq<Packet>, kind: StreamKind, n: nat) -> Seq<u8>
    decreases n,
{
    if n == 0 {
        Seq::empty()
    } else if packets[n - 1].kind == kind {
        stream_upto(packets, kind, (n - 1) as nat) + packets[n - 1].data@
    } else {
        stream_upto(packets, kind, (n - 1) as nat)
    }
}

/// The number of packets of one kind among the first `n`.
pub open spec fn count_upto(packets: Seq<Packet>, kind: StreamKind, n: nat) -> nat
    decreases n,
{
    if n == 0 {
        0
    } else if packets[n - 1].kind == kind {
        count_upto(packets, kind, (n - 1) as nat) + 1
    } else {
        count_upto(packets, kind, (n - 1) as nat)
    }
}

/// The first `n` packets stay within the limits of every stream.
pub open spec fn within_limits(packets: Seq<Packet>, n: nat) -> bool {
    &&& count_upto(packets, StreamKind::Audio, n) <= MAX_AUDIO_PACKETS
    &&& count_upto(packets, StreamKind::Video, n) <= MAX_VIDEO_PACKETS
    &&& count_upto(packets, StreamKind::Subtitle, n) <= MAX_SUBTITLE_PACKETS
    &&& stream_upto(packets, StreamKind::Audio, n).len() <= MAX_AUDIO_BYTES
    &&& stream_upto(packets, StreamKind::Video, n).len() <= MAX_VIDEO_BYTES
    &&& stream_upto(packets, StreamKind::Subtitle, n).len() <= MAX_SUBTITLE_BYTES
}

/// Counts and stream lengths only grow with the number of packets.
pub proof fn lemma_upto_grows(packets: Seq<Packet>, kind: StreamKind, m: nat, n: nat)
    requires
        m <= n,
    ensures
        count_upto(packets, kind, m) <= count_upto(packets, kind, n),
        stream_upto(packets, kind, m).len() <= stream_upto(packets, kind, n).len(),
    decreases n,
{
    if m < n {
        lemma_upto_grows(packets, kind, m, (n - 1) as nat);
    }
}

/// Whether the packets sort into streams: the fuse is intact, every stream
/// stays within its limits, and something was found.
pub open spec fn demux_accepts(killed: bool, packets: Seq<Packet>) -> bool {
    let n = packets.len();
    &&& !killed
    &&& within_limits(packets, n)
    &&& stream_upto(packets, StreamKind::Audio, n).len() + stream_upto(
        packets,
        StreamKind::Video,
        n,
    ).len() + stream_upto(packets, StreamKind::Subtitle, n).len() > 0
}

/// Sorts the packets of a container into its audio, video and subtitle
/// streams. Refused once the fuse is blown, when a stream exceeds its limit
/// of packets or bytes, and when no stream holds anything.
pub fn demux(fuse: &KillFuse, packets: &[Packet]) -> (r: Result<DemuxedStreams, MediaError>)
    ensures
        r is Ok <==> demux_accepts(fuse.killed(), packets@),
        r matches Ok(s) ==> s.audio@ == stream_upto(packets@, StreamKind::Audio, packets@.len())
            && s.video@ == stream_upto(packets@, StreamKind::Video, packets@.len())
            && s.subtitles@ == stream_upto(packets@, StreamKind::Subtitle, packets@.len()),
        r is Err ==> r->Err_0 == MediaError::DemuxFailed,
{
    if fuse.is_killed() {
        return Err(MediaError::DemuxFailed);
    }
    let mut audio: Vec<u8> = Vec::new();
    let mut video: Vec<u8> = Vec::new();
    let mut subtitles: Vec<u8> = Vec::new();
    let mut a_pk: usize = 0;
    let mut v_pk: usize = 0;
    let mut s_pk: usize = 0;
    let n: usize = packets.len();
    let mut i: usize = 0;
    while i < n
        invariant
            i <= n,
            n == packets@.len(),
            within_limits(packets@, i as nat),
            a_pk == count_upto(packets@, StreamKind::Audio, i as nat),
            v_pk == count_upto(packets@, StreamKind::Video, i as nat),
            s_pk == count_upto(packets@, StreamKind::Subtitle, i as nat),
            audio@ == stream_upto(packets@, StreamKind::Audio, i as nat),
            video@ == stream_upto(packets@, StreamKind::Video, i as nat),
            subtitles@ == stream_upto(packets@, StreamKind::Subtitle, i as nat),
        decreases n - i,
    {
        let packet = &packets[i];
        let len: usize = packet.data.len();
        proof {
            lemma_upto_grows(packets@, StreamKind::Audio, (i + 1) as nat, n as nat);
            lemma_upto_grows(packets@, StreamKind::Video, (i + 1) as nat, n as nat);
            lemma_upto_grows(packets@, StreamKind::Subtitle, (i + 1) as nat, n as nat);
        }
        match packet.kind {
            StreamKind::Audio => {
                a_pk += 1;
                if a_pk > MAX_AUDIO_PACKETS || len > MAX_AUDIO_BYTES - audio.len() {
                    return Err(MediaError::DemuxFailed);
                }
                audio.extend_from_slice(packet.data.as_slice());
            },
            StreamKind::Video => {
                v_pk += 1;
                if v_pk > MAX_VIDEO_PACKETS || len > MAX_VIDEO_BYTES - video.len() {
                    return Err(MediaError::DemuxFailed);
                }
                video.extend_from_slice(packet.data.as_slice());
            },
            StreamKind::Subtitle => {
                s_pk += 1;
                if s_pk > MAX_SUBTITLE_PACKETS || len > MAX_SUBTITLE_BYTES - subtitles.len() {
                    return Err(MediaError::DemuxFailed);
                }
                subtitles.extend_from_slice(packet.data.as_slice());
            },
            StreamKind::Other => {},
        }
        i += 1;
    }
    if audio.len() == 0 && video.len() == 0 && subtitles.len() == 0 {
        return Err(MediaError::DemuxFailed);
    }
    Ok(DemuxedStreams { audio, video, subtitles })
}

} // verus!
