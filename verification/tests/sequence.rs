//! Tests for sequences: routing, duration, and stacked queries.

use vxutil_core::media::MediaId;
use vxutil_core::timeline::{Clip, Sequence, Track, TrackId, TrackType};
use vxutil_core::types::{FrameRate, Resolution, Timecode};

fn clip_covering(position: u64, length: u64, name: &str) -> Clip {
    Clip::new(
        name.to_string(),
        MediaId::new(),
        Timecode::from_seconds(position),
        Timecode::from_seconds(0),
        Timecode::from_seconds(length),
    )
}

fn empty_sequence() -> Sequence {
    Sequence::new("seq".to_string(), FrameRate::fps_30(), Resolution::full_hd())
}

#[test]
fn test_empty_sequence_duration_is_zero() {
    let seq = empty_sequence();
    assert_eq!(seq.duration().as_duration().as_nanos(), 0);
    assert_eq!(seq.playhead.as_duration().as_nanos(), 0);
}

#[test]
fn test_duration_is_largest_end_across_all_tracks() {
    let mut seq = empty_sequence();

    let mut video = Track::new(TrackId(0), "video 1".to_string(), TrackType::Video);
    video.add_clip(clip_covering(5, 10, "v")); // ends at 15s
    seq.add_track(video);

    let mut audio = Track::new(TrackId(1), "audio 1".to_string(), TrackType::Audio);
    audio.add_clip(clip_covering(2, 10, "a")); // ends at 12s
    seq.add_track(audio);

    assert_eq!(seq.duration().as_seconds(), 15);
}

#[test]
fn test_add_track_routes_by_type() {
    let mut seq = empty_sequence();
    seq.add_track(Track::new(TrackId(0), "video 1".to_string(), TrackType::Video));
    seq.add_track(Track::new(TrackId(1), "audio 1".to_string(), TrackType::Audio));
    seq.add_track(Track::new(TrackId(2), "video 2".to_string(), TrackType::Video));

    assert_eq!(seq.video_tracks.len(), 2);
    assert_eq!(seq.audio_tracks.len(), 1);
    assert_eq!(seq.video_tracks[1].id, TrackId(2));
}

#[test]
fn test_get_track_searches_video_then_audio() {
    let mut seq = empty_sequence();
    seq.add_track(Track::new(TrackId(0), "video 1".to_string(), TrackType::Video));
    seq.add_track(Track::new(TrackId(7), "audio 1".to_string(), TrackType::Audio));

    assert_eq!(seq.get_track(TrackId(0)).unwrap().name, "video 1");
    assert_eq!(seq.get_track(TrackId(7)).unwrap().name, "audio 1");
    assert!(seq.get_track(TrackId(9)).is_none());
}

#[test]
fn test_get_track_mut_edits_in_place() {
    let mut seq = empty_sequence();
    seq.add_track(Track::new(TrackId(0), "video 1".to_string(), TrackType::Video));

    let track = seq.get_track_mut(TrackId(0)).unwrap();
    track.muted = true;

    assert!(seq.video_tracks[0].muted);
    assert!(seq.get_track_mut(TrackId(4)).is_none());
}

#[test]
fn test_video_clips_at_time_keeps_track_order() {
    let mut seq = empty_sequence();

    // Track 0 and track 2 cover 6s, track 1 does not.
    let mut t0 = Track::new(TrackId(0), "video 1".to_string(), TrackType::Video);
    t0.add_clip(clip_covering(0, 10, "bottom"));
    let mut t1 = Track::new(TrackId(1), "video 2".to_string(), TrackType::Video);
    t1.add_clip(clip_covering(20, 5, "elsewhere"));
    let mut t2 = Track::new(TrackId(2), "video 3".to_string(), TrackType::Video);
    t2.add_clip(clip_covering(4, 10, "top"));
    seq.add_track(t0);
    seq.add_track(t1);
    seq.add_track(t2);

    let stack = seq.video_clips_at_time(Timecode::from_seconds(6));
    assert_eq!(stack.len(), 2);
    assert_eq!(stack[0].name, "bottom");
    assert_eq!(stack[1].name, "top");
}

#[test]
fn test_audio_clips_at_time() {
    let mut seq = empty_sequence();
    let mut a0 = Track::new(TrackId(0), "audio 1".to_string(), TrackType::Audio);
    a0.add_clip(clip_covering(0, 4, "speech"));
    seq.add_track(a0);

    assert_eq!(seq.audio_clips_at_time(Timecode::from_seconds(1)).len(), 1);
    assert_eq!(seq.audio_clips_at_time(Timecode::from_seconds(5)).len(), 0);
}
