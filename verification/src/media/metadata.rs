//! Metadata describing a source media file, filled in by an external
//! probe and treated here as plain data.

use vstd::prelude::*;

use crate::types::{Duration, FrameRate, Resolution};

verus! {

/// What is known about a media file. Every field except the size may be
/// absent: images have no duration, audio has no resolution.
#[derive(Debug, Clone)]
pub struct MediaMetadata {
    /// Playable duration, when known (`None` for images).
    pub duration: Option<Duration>,
    /// Pixel dimensions, for video and images.
    pub resolution: Option<Resolution>,
    /// Frame rate, for video.
    pub frame_rate: Option<FrameRate>,
    /// Codec name, such as "H.264" or "AAC".
    pub codec: Option<String>,
    /// Audio sample rate in hertz.
    pub sample_rate: Option<u32>,
    /// Bitrate in bits per second.
    pub bitrate: Option<u64>,
    /// File size in bytes.
    pub file_size: u64,
}

impl MediaMetadata {
    /// Nothing known yet: every optional field absent, size zero.
    pub open spec fn spec_is_unprobed(&self) -> bool {
        &&& self.duration is None
        &&& self.resolution is None
        &&& self.frame_rate is None
        &&& self.codec is None
        &&& self.sample_rate is None
        &&& self.bitrate is None
        &&& self.file_size == 0
    }
}

impl Default for MediaMetadata {
    /// Metadata for a file that has not been probed yet.
    fn default() -> (r: Self)
        ensures
            r.spec_is_unprobed(),
    {
        MediaMetadata {
            duration: None,
            resolution: None,
            frame_rate: None,
            codec: None,
            sample_rate: None,
            bitrate: None,
            file_size: 0,
        }
    }
}

} // verus!
