use rcxcore::keystore::master::KillFuse;
use rcxcore::media::container::demux::{demux, Packet, StreamKind};
use rcxcore::media::decode::audio::{decode_audio, DecodedAudio};
use rcxcore::media::decode::video::{decode_video, DecodedVideo};
use rcxcore::media::errors::MediaError;
use rcxcore::media::limits::{check_media_size, MAX_MEDIA_BYTES};
use rcxcore::media::output::SanitizedMedia;
use rcxcore::media::sanitize::audio::sanitize_audio;
use rcxcore::media::sanitize::video::sanitize_video;
use rcxcore::media::subtitles::decode::decode_subtitles;
use rcxcore::media::{process_media, Decoded};

fn packet(kind: StreamKind, data: &[u8]) -> Packet {
    Packet { kind, data: data.to_vec() }
}

#[test]
fn inputs_up_to_the_limit_are_taken() {
    assert!(check_media_size(0));
    assert!(check_media_size(256 * 1024 * 1024));
    assert!(!check_media_size(256 * 1024 * 1024 + 1));
    assert_eq!(MAX_MEDIA_BYTES, 256 * 1024 * 1024);
}

#[test]
fn packets_are_sorted_into_their_streams_in_order() {
    let fuse = KillFuse::new();
    let packets = vec![
        packet(StreamKind::Audio, &[1, 2]),
        packet(StreamKind::Video, &[3]),
        packet(StreamKind::Other, &[9, 9, 9]),
        packet(StreamKind::Audio, &[4]),
        packet(StreamKind::Subtitle, &[5, 6]),
        packet(StreamKind::Video, &[]),
        packet(StreamKind::Video, &[7]),
    ];
    let streams = demux(&fuse, &packets).ok().unwrap();
    assert_eq!(streams.audio, vec![1, 2, 4]);
    assert_eq!(streams.video, vec![3, 7]);
    assert_eq!(streams.subtitles, vec![5, 6]);
}

#[test]
fn demux_refuses_nothing_and_too_much() {
    let mut fuse = KillFuse::new();
    assert!(matches!(demux(&fuse, &[]), Err(MediaError::DemuxFailed)));
    assert!(matches!(
        demux(&fuse, &[packet(StreamKind::Other, &[1]), packet(StreamKind::Audio, &[])]),
        Err(MediaError::DemuxFailed)
    ));
    let big = vec![0u8; 4 * 1024 * 1024];
    assert!(demux(&fuse, &[packet(StreamKind::Subtitle, &big)]).is_ok());
    assert!(matches!(
        demux(&fuse, &[packet(StreamKind::Subtitle, &big), packet(StreamKind::Subtitle, &[1])]),
        Err(MediaError::DemuxFailed)
    ));
    let mut many: Vec<Packet> = Vec::new();
    for _ in 0..50_000 {
        many.push(packet(StreamKind::Subtitle, &[1]));
    }
    assert!(demux(&fuse, &many).is_ok());
    many.push(packet(StreamKind::Subtitle, &[]));
    assert!(matches!(demux(&fuse, &many), Err(MediaError::DemuxFailed)));
    fuse.blow();
    assert!(matches!(
        demux(&fuse, &[packet(StreamKind::Audio, &[1])]),
        Err(MediaError::DemuxFailed)
    ));
}

#[test]
fn audio_frames_become_little_endian_samples() {
    let fuse = KillFuse::new();
    let frames = vec![vec![0x01, 0x00, 0xff, 0xff], vec![], vec![0x00, 0x80, 0xff, 0x7f, 0x34, 0x12]];
    let audio = decode_audio(&fuse, &frames, 48_000, 2).ok().unwrap();
    assert_eq!(audio.pcm, vec![1, -1, i16::MIN, i16::MAX, 0x1234]);
    assert_eq!(audio.sample_rate, 48_000);
    assert_eq!(audio.channels, 2);
    let wide = decode_audio(&fuse, &frames, 48_000, 258).ok().unwrap();
    assert_eq!(wide.channels, 2);
}

#[test]
fn audio_is_refused_when_unfit() {
    let mut fuse = KillFuse::new();
    let frames = vec![vec![1u8, 0]];
    assert!(matches!(decode_audio(&fuse, &[vec![1u8, 0, 2]], 48_000, 2), Err(MediaError::DecodeFailed)));
    assert!(matches!(decode_audio(&fuse, &frames, 0, 2), Err(MediaError::DecodeFailed)));
    assert!(matches!(decode_audio(&fuse, &frames, 48_000, 0), Err(MediaError::DecodeFailed)));
    assert!(decode_audio(&fuse, &[], 48_000, 2).is_ok());
    fuse.blow();
    assert!(matches!(decode_audio(&fuse, &frames, 48_000, 2), Err(MediaError::DecodeFailed)));
}

#[test]
fn audio_is_limited_to_ten_minutes() {
    let fuse = KillFuse::new();
    let full = vec![vec![0u8; 2 * 28_800_000]];
    assert_eq!(decode_audio(&fuse, &full, 48_000, 1).ok().unwrap().pcm.len(), 28_800_000);
    let over = vec![vec![0u8; 2 * 28_800_000], vec![0u8; 2]];
    assert!(matches!(decode_audio(&fuse, &over, 48_000, 1), Err(MediaError::DecodeFailed)));
}

#[test]
fn video_is_taken_within_the_limits() {
    let mut fuse = KillFuse::new();
    let video = decode_video(&fuse, 4096, 1, vec![vec![1, 2, 3, 4]]).ok().unwrap();
    assert_eq!((video.width, video.height), (4096, 1));
    assert_eq!(video.frames, vec![vec![1, 2, 3, 4]]);
    assert!(matches!(decode_video(&fuse, 0, 1, Vec::new()), Err(MediaError::DecodeFailed)));
    assert!(matches!(decode_video(&fuse, 1, 0, Vec::new()), Err(MediaError::DecodeFailed)));
    assert!(matches!(decode_video(&fuse, 4097, 1, Vec::new()), Err(MediaError::DecodeFailed)));
    assert!(matches!(decode_video(&fuse, 1, 4097, Vec::new()), Err(MediaError::DecodeFailed)));
    assert!(decode_video(&fuse, 1, 1, vec![Vec::new(); 2000]).is_ok());
    assert!(matches!(
        decode_video(&fuse, 1, 1, vec![Vec::new(); 2001]),
        Err(MediaError::DecodeFailed)
    ));
    fuse.blow();
    assert!(matches!(decode_video(&fuse, 1, 1, Vec::new()), Err(MediaError::DecodeFailed)));
}

#[test]
fn sanitization_refuses_empty_shapes() {
    let ok = sanitize_audio(DecodedAudio { pcm: vec![1, 2], sample_rate: 8000, channels: 1 });
    assert_eq!(ok.ok().unwrap().pcm, vec![1, 2]);
    assert!(matches!(
        sanitize_audio(DecodedAudio { pcm: vec![1], sample_rate: 0, channels: 1 }),
        Err(MediaError::SanitizationFailed)
    ));
    assert!(matches!(
        sanitize_audio(DecodedAudio { pcm: vec![1], sample_rate: 8000, channels: 0 }),
        Err(MediaError::SanitizationFailed)
    ));
    let ok = sanitize_video(DecodedVideo { frames: vec![vec![9]], width: 2, height: 3 });
    let ok = ok.ok().unwrap();
    assert_eq!((ok.frames, ok.width, ok.height), (vec![vec![9u8]], 2, 3));
    assert!(matches!(
        sanitize_video(DecodedVideo { frames: Vec::new(), width: 0, height: 3 }),
        Err(MediaError::SanitizationFailed)
    ));
    assert!(matches!(
        sanitize_video(DecodedVideo { frames: Vec::new(), width: 2, height: 0 }),
        Err(MediaError::SanitizationFailed)
    ));
}

#[test]
fn no_subtitles_are_decoded() {
    assert_eq!(decode_subtitles(b"1\n00:00:01,000 --> 00:00:02,000\nhello\n"), Ok(Vec::new()));
    assert_eq!(decode_subtitles(b""), Ok(Vec::new()));
}

#[test]
fn the_pipeline_applies_the_size_limit_first() {
    let audio = DecodedAudio { pcm: vec![1, 2], sample_rate: 8000, channels: 1 };
    assert!(matches!(
        process_media(MAX_MEDIA_BYTES + 1, Decoded::Audio(audio)),
        Err(MediaError::InputTooLarge)
    ));
    let audio = DecodedAudio { pcm: vec![1, 2], sample_rate: 8000, channels: 1 };
    match process_media(MAX_MEDIA_BYTES, Decoded::Audio(audio)) {
        Ok(SanitizedMedia::Audio(a)) => {
            assert_eq!((a.pcm, a.sample_rate, a.channels), (vec![1i16, 2], 8000, 1));
        }
        _ => panic!("audio expected"),
    }
    let video = DecodedVideo { frames: vec![vec![9]], width: 2, height: 3 };
    match process_media(10, Decoded::Video(video, vec![1, 2, 3])) {
        Ok(SanitizedMedia::Video(v)) => {
            assert_eq!((v.frames, v.width, v.height), (vec![vec![9u8]], 2, 3));
            assert!(v.subtitles.is_empty());
        }
        _ => panic!("video expected"),
    }
    let bad = DecodedVideo { frames: Vec::new(), width: 0, height: 3 };
    assert!(matches!(
        process_media(10, Decoded::Video(bad, Vec::new())),
        Err(MediaError::SanitizationFailed)
    ));
}
