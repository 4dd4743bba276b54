//! Half-open time ranges on a timeline.

use vstd::prelude::*;

use super::timecode::{Duration, Timecode};

verus! {

/// Whether `t` lies in the half-open interval `[start, end)`.
pub open spec fn spec_range_contains(start: int, end: int, t: int) -> bool {
    start <= t && t < end
}

/// The half-open interval `[start, start + duration)`.
#[derive(Debug, Clone, Copy, PartialEq, Eq, Structural)]
pub struct TimeRange {
    pub start: Timecode,
    pub duration: Duration,
}

impl TimeRange {
    /// The instant one past the last contained instant, as an integer.
    pub open spec fn spec_end(&self) -> int {
        self.start@ + self.duration@
    }

    /// The end instant fits in a `Timecode`.
    pub open spec fn wf(&self) -> bool {
        self.spec_end() <= u64::MAX
    }

    /// Whether `t` lies inside the range: the start is included,
    /// the end is not.
    pub open spec fn spec_contains(&self, t: int) -> bool {
        spec_range_contains(self.start@, self.spec_end(), t)
    }

    pub fn new(start: Timecode, duration: Duration) -> (r: Self)
        ensures
            r.start == start,
            r.duration == duration,
    {
        TimeRange { start, duration }
    }

    /// The first instant past the range.
    pub fn end(&self) -> (r: Timecode)
        requires
            self.wf(),
        ensures
            r@ == self.spec_end(),
    {
        Timecode(Duration { nanos: self.start.0.nanos + self.duration.nanos })
    }

    /// Half-open containment: true exactly when `start <= time < end`.
    pub fn contains(&self, time: Timecode) -> (r: bool)
        requires
            self.wf(),
        ensures
            r == self.spec_contains(time@),
    {
        time.0.nanos >= self.start.0.nanos && time.0.nanos < self.start.0.nanos
            + self.duration.nanos
    }
}

/// A half-open range never contains its own end instant, whatever the
/// range and however it was built.
pub proof fn lemma_end_not_contained(r: TimeRange)
    ensures
        !r.spec_contains(r.spec_end()),
{
}

} // verus!
