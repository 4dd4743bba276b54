//! Tests for the temporal value types.

use vxutil_core::types::{Duration, FrameRate, Resolution, TimeRange, Timecode, NANOS_PER_SEC};

#[test]
fn test_timecode_from_seconds() {
    let t = Timecode::from_seconds(10);
    assert_eq!(t.as_duration().as_nanos(), 10 * NANOS_PER_SEC);
    assert_eq!(t.as_seconds(), 10);
}

#[test]
fn test_timecode_from_frames_whole_rate() {
    // 24 frames at 24 fps is exactly one second.
    let t = Timecode::from_frames(24, FrameRate::fps_24());
    assert_eq!(t.as_seconds(), 1);
    assert_eq!(t.as_duration().as_nanos(), NANOS_PER_SEC);
}

#[test]
fn test_timecode_from_frames_fractional_rate() {
    // 24000 frames at 24000/1001 fps is exactly 1001 seconds.
    let t = Timecode::from_frames(24000, FrameRate::fps_23_976());
    assert_eq!(t.as_seconds(), 1001);
}

#[test]
fn test_duration_truncates_to_seconds() {
    let d = Duration::from_nanos(2_500_000_000);
    assert_eq!(d.as_secs(), 2);
}

#[test]
fn test_frame_rate_presets() {
    assert_eq!(FrameRate::fps_25(), FrameRate::new(25, 1));
    assert_eq!(FrameRate::fps_30(), FrameRate::new(30, 1));
    assert_eq!(FrameRate::fps_60(), FrameRate::new(60, 1));
    assert_eq!(FrameRate::fps_29_97(), FrameRate::new(30000, 1001));
}

#[test]
fn test_resolution_presets() {
    assert_eq!(Resolution::hd(), Resolution::new(1280, 720));
    assert_eq!(Resolution::full_hd(), Resolution::new(1920, 1080));
    assert_eq!(Resolution::uhd_4k(), Resolution::new(3840, 2160));
}

#[test]
fn test_time_range_contains() {
    let r = TimeRange::new(Timecode::from_seconds(5), Duration::from_secs(10));
    assert_eq!(r.end().as_seconds(), 15);
    assert!(!r.contains(Timecode::from_seconds(4)));
    assert!(r.contains(Timecode::from_seconds(5)));
    assert!(r.contains(Timecode::from_seconds(14)));
    // The range is half-open: its end instant is not contained.
    assert!(!r.contains(Timecode::from_seconds(15)));
    assert!(!r.contains(r.end()));
}

#[test]
fn test_time_range_empty_contains_nothing() {
    let r = TimeRange::new(Timecode::from_seconds(5), Duration::from_nanos(0));
    assert!(!r.contains(Timecode::from_seconds(5)));
    assert!(!r.contains(r.end()));
}
