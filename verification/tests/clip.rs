//! Tests for clips: derived duration, containment, time mapping.

use vxutil_core::media::MediaId;
use vxutil_core::timeline::{BlendMode, Clip, Speed};
use vxutil_core::types::{Duration, TimeRange, Timecode};

fn make_clip(position: u64, source_in: u64, source_out: u64) -> Clip {
    Clip::new(
        "test".to_string(),
        MediaId::new(),
        Timecode::from_seconds(position),
        Timecode::from_seconds(source_in),
        Timecode::from_seconds(source_out),
    )
}

#[test]
fn test_clip_timeline_duration() {
    let clip = make_clip(0, 10, 20); // 10 second source
    assert_eq!(clip.timeline_duration().as_secs(), 10);
}

#[test]
fn test_clip_with_speed() {
    let mut clip = make_clip(0, 0, 10);
    clip.speed = Speed::new(2, 1); // 2x speed

    // Source is 10 seconds, but at 2x speed = 5 seconds on timeline
    assert_eq!(clip.timeline_duration().as_secs(), 5);
}

#[test]
fn test_clip_half_speed() {
    let mut clip = make_clip(0, 0, 10);
    clip.speed = Speed::new(1, 2); // half speed

    assert_eq!(clip.timeline_duration().as_secs(), 20);
}

#[test]
fn test_clip_contains_time() {
    let clip = make_clip(10, 0, 5);

    assert!(clip.contains_time(Timecode::from_seconds(12)));
    assert!(!clip.contains_time(Timecode::from_seconds(16)));
}

#[test]
fn test_clip_contains_time_half_open() {
    let clip = make_clip(10, 0, 5); // covers [10s, 15s)
    assert!(clip.contains_time(Timecode::from_seconds(10)));
    assert!(!clip.contains_time(Timecode::from_seconds(15)));
}

#[test]
fn test_timeline_to_source_time() {
    let mut clip = make_clip(10, 20, 30);
    clip.speed = Speed::new(2, 1); // 2x speed

    // Timeline 12 seconds -> 2 seconds into clip -> 4 seconds in source (2x)
    // -> source 24 seconds
    let source_time = clip.timeline_to_source_time(Timecode::from_seconds(12));
    assert_eq!(source_time.unwrap().as_seconds(), 24);
}

#[test]
fn test_timeline_to_source_time_outside_clip() {
    let clip = make_clip(10, 20, 30); // covers [10s, 20s)
    assert!(clip.timeline_to_source_time(Timecode::from_seconds(9)).is_none());
    assert!(clip.timeline_to_source_time(Timecode::from_seconds(20)).is_none());
}

#[test]
fn test_timeline_to_source_round_trip() {
    let mut clip = make_clip(10, 20, 30);
    clip.speed = Speed::new(2, 1);

    // 13s on the timeline maps to 26s in the source; the inverse
    // formula, position + (source - source_in) * den / num, recovers it.
    let t = Timecode::from_seconds(13);
    let source = clip.timeline_to_source_time(t).unwrap();
    assert_eq!(source.as_seconds(), 26);

    let position = clip.timeline_position.as_duration().as_nanos();
    let source_in = clip.source_in.as_duration().as_nanos();
    let back = position
        + (source.as_duration().as_nanos() - source_in) * clip.speed.den as u64
            / clip.speed.num as u64;
    assert_eq!(back, t.as_duration().as_nanos());
}

#[test]
fn test_new_clip_defaults() {
    let clip = make_clip(0, 0, 10);
    assert_eq!(clip.speed, Speed::new(1, 1));
    assert_eq!(clip.blend_mode, BlendMode::Normal);
    assert!(clip.effects.is_empty());
    assert_eq!(clip.name, "test");
}

#[test]
fn test_clip_timeline_end() {
    let mut clip = make_clip(10, 20, 30);
    clip.speed = Speed::new(2, 1);
    assert_eq!(clip.timeline_end().as_seconds(), 15);
}

#[test]
fn test_clip_overlaps_with() {
    let clip = make_clip(10, 0, 5); // covers [10s, 15s)

    let inside = TimeRange::new(Timecode::from_seconds(11), Duration::from_secs(2));
    assert!(clip.overlaps_with(inside));

    let across_start = TimeRange::new(Timecode::from_seconds(8), Duration::from_secs(4));
    assert!(clip.overlaps_with(across_start));

    let disjoint = TimeRange::new(Timecode::from_seconds(20), Duration::from_secs(5));
    assert!(!clip.overlaps_with(disjoint));

    // A range starting exactly at the clip's end instant counts as an
    // overlap under the four endpoint checks, since the end instant
    // lies inside the range.
    let touching = TimeRange::new(Timecode::from_seconds(15), Duration::from_secs(5));
    assert!(clip.overlaps_with(touching));
}
