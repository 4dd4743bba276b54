//! Instants and durations, kept as exact whole nanosecond counts.

use vstd::prelude::*;

use super::framerate::FrameRate;

verus! {

/// Nanoseconds in one second.
pub const NANOS_PER_SEC: u64 = 1_000_000_000;

/// A span of time, stored as a whole number of nanoseconds.
/// Its view is that count as a mathematical integer.
#[derive(Debug, Clone, Copy, PartialEq, Eq, Structural)]
pub struct Duration {
    pub nanos: u64,
}

impl View for Duration {
    type V = int;

    open spec fn view(&self) -> int {
        self.nanos as int
    }
}

impl Duration {
    /// A duration of exactly `nanos` nanoseconds.
    pub fn from_nanos(nanos: u64) -> (r: Self)
        ensures
            r@ == nanos,
    {
        Duration { nanos }
    }

    /// A duration of exactly `secs` whole seconds.
    pub fn from_secs(secs: u64) -> (r: Self)
        requires
            secs * NANOS_PER_SEC <= u64::MAX,
        ensures
            r@ == secs * NANOS_PER_SEC,
    {
        Duration { nanos: secs * NANOS_PER_SEC }
    }

    /// The exact nanosecond count.
    pub fn as_nanos(&self) -> (r: u64)
        ensures
            r == self@,
    {
        self.nanos
    }

    /// Whole seconds, truncating any sub-second remainder.
    pub fn as_secs(&self) -> (r: u64)
        ensures
            r == self@ / (NANOS_PER_SEC as int),
    {
        self.nanos / NANOS_PER_SEC
    }
}

/// An instant on a timeline: the elapsed time since zero.
/// Its view is the elapsed nanosecond count as a mathematical integer.
#[derive(Debug, Clone, Copy, PartialEq, Eq, Structural)]
pub struct Timecode(pub Duration);

impl View for Timecode {
    type V = int;

    open spec fn view(&self) -> int {
        self.0@
    }
}

impl Timecode {
    /// The instant `seconds` whole seconds after zero.
    pub fn from_seconds(seconds: u64) -> (r: Self)
        requires
            seconds * NANOS_PER_SEC <= u64::MAX,
        ensures
            r@ == seconds * NANOS_PER_SEC,
    {
        Timecode(Duration::from_secs(seconds))
    }

    /// The instant at which frame `frames` starts under `frame_rate`,
    /// truncated to whole nanoseconds.
    pub fn from_frames(frames: u64, frame_rate: FrameRate) -> (r: Self)
        requires
            frame_rate.numerator > 0,
            frames * frame_rate.denominator * NANOS_PER_SEC / (frame_rate.numerator as int)
                <= u64::MAX,
        ensures
            r@ == frames * frame_rate.denominator * NANOS_PER_SEC / (frame_rate.numerator as int),
    {
        proof {
            assert((frames as int) * (frame_rate.denominator as int) * (NANOS_PER_SEC as int)
                <= (u64::MAX as int) * (u32::MAX as int) * (NANOS_PER_SEC as int)) by (nonlinear_arith)
                requires
                    frames <= u64::MAX,
                    frame_rate.denominator <= u32::MAX,
            ;
        }
        let total: u128 = (frames as u128) * (frame_rate.denominator as u128) * (NANOS_PER_SEC
            as u128);
        let nanos: u128 = total / (frame_rate.numerator as u128);
        Timecode(Duration { nanos: nanos as u64 })
    }

    /// The elapsed time since zero.
    pub fn as_duration(&self) -> (r: Duration)
        ensures
            r == self.0,
    {
        self.0
    }

    /// Whole seconds since zero, truncating any sub-second remainder.
    pub fn as_seconds(&self) -> (r: u64)
        ensures
            r == self@ / (NANOS_PER_SEC as int),
    {
        self.0.as_secs()
    }
}

/// An index of a frame within some piece of media.
#[derive(Debug, Clone, Copy, PartialEq, Eq, Structural)]
pub struct FrameNumber(pub u64);

} // verus!
