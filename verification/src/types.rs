//! Common value types: instants, durations, frame rates, resolutions and
//! half-open time ranges.

mod framerate;
mod resolution;
mod timecode;
mod timerange;

pub use framerate::FrameRate;
pub use resolution::Resolution;
pub use timecode::{Duration, FrameNumber, Timecode, NANOS_PER_SEC};
pub use timerange::{spec_range_contains, TimeRange};
