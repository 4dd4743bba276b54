//! Tests for tracks: sorted insertion, removal, point and range queries.

use vxutil_core::media::MediaId;
use vxutil_core::timeline::{Clip, Track, TrackId, TrackType};
use vxutil_core::types::{Duration, TimeRange, Timecode};

fn clip_at(position: u64, length: u64) -> Clip {
    Clip::new(
        format!("clip at {position}"),
        MediaId::new(),
        Timecode::from_seconds(position),
        Timecode::from_seconds(0),
        Timecode::from_seconds(length),
    )
}

#[test]
fn test_add_clip_keeps_sorted_order() {
    let mut track = Track::new(TrackId(0), "video 1".to_string(), TrackType::Video);
    track.add_clip(clip_at(5, 1));
    track.add_clip(clip_at(1, 1));
    track.add_clip(clip_at(3, 1));

    let positions: Vec<u64> = track.clips.iter().map(|c| c.timeline_position.as_seconds()).collect();
    assert_eq!(positions, vec![1, 3, 5]);
}

#[test]
fn test_add_clip_equal_positions_newest_last() {
    let mut track = Track::new(TrackId(0), "video 1".to_string(), TrackType::Video);
    let first = clip_at(2, 1);
    let second = clip_at(2, 1);
    let first_id = first.id;
    let second_id = second.id;
    track.add_clip(first);
    track.add_clip(second);
    assert_eq!(track.clips[0].id, first_id);
    assert_eq!(track.clips[1].id, second_id);
}

#[test]
fn test_remove_clip_twice_is_idempotent() {
    let mut track = Track::new(TrackId(0), "video 1".to_string(), TrackType::Video);
    let clip = clip_at(4, 2);
    let id = clip.id;
    track.add_clip(clip);
    track.add_clip(clip_at(1, 1));

    let removed = track.remove_clip(&id);
    assert!(removed.is_some());
    assert_eq!(removed.unwrap().id, id);
    assert_eq!(track.clips.len(), 1);

    // The same id a second time: an absence signal, nothing changes.
    assert!(track.remove_clip(&id).is_none());
    assert_eq!(track.clips.len(), 1);
}

#[test]
fn test_remove_clip_unknown_id() {
    let mut track = Track::new(TrackId(0), "video 1".to_string(), TrackType::Video);
    track.add_clip(clip_at(0, 1));
    let stranger = clip_at(9, 1);
    assert!(track.remove_clip(&stranger.id).is_none());
    assert_eq!(track.clips.len(), 1);
}

#[test]
fn test_clip_at_time_first_match_wins() {
    let mut track = Track::new(TrackId(0), "video 1".to_string(), TrackType::Video);
    let early = clip_at(2, 10); // covers [2s, 12s)
    let late = clip_at(5, 10); // covers [5s, 15s)
    let early_id = early.id;
    track.add_clip(late);
    track.add_clip(early);

    // 7s is covered by both; the first in sorted order wins.
    let found = track.clip_at_time(Timecode::from_seconds(7)).unwrap();
    assert_eq!(found.id, early_id);

    assert!(track.clip_at_time(Timecode::from_seconds(20)).is_none());
}

#[test]
fn test_clips_in_range() {
    let mut track = Track::new(TrackId(0), "video 1".to_string(), TrackType::Video);
    track.add_clip(clip_at(0, 2)); // [0s, 2s)
    track.add_clip(clip_at(5, 2)); // [5s, 7s)
    track.add_clip(clip_at(10, 2)); // [10s, 12s)

    let range = TimeRange::new(Timecode::from_seconds(4), Duration::from_secs(4));
    let hits = track.clips_in_range(range);
    assert_eq!(hits.len(), 1);
    assert_eq!(hits[0].timeline_position.as_seconds(), 5);
}

#[test]
fn test_new_track_is_empty() {
    let track = Track::new(TrackId(3), "audio 1".to_string(), TrackType::Audio);
    assert_eq!(track.id, TrackId(3));
    assert_eq!(track.track_type, TrackType::Audio);
    assert!(track.clips.is_empty());
    assert!(!track.muted);
    assert!(!track.locked);
}
