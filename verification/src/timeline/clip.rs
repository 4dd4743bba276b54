//! A clip: a time-mapped placement of source media on the timeline.

use vstd::arithmetic::div_mod::{
    lemma_div_pos_is_pos, lemma_fundamental_div_mod, lemma_multiply_divide_lt,
    lemma_div_multiples_vanish,
};
use vstd::arithmetic::mul::{lemma_mul_inequality, lemma_mul_nonnegative};
use vstd::prelude::*;

use super::blend_mode::BlendMode;
use crate::effects::EffectType;
use crate::media::MediaId;
use crate::trusted::fresh_uuid_bits;
use crate::types::{spec_range_contains, Duration, TimeRange, Timecode};

verus! {

/// Opaque unique identifier for a clip, drawn from a process-wide
/// random source at construction.
#[derive(Debug, Clone, Copy, PartialEq, Eq, Hash, Structural)]
pub struct ClipId(u128);

impl ClipId {
    /// A fresh random identifier.
    pub fn new() -> Self {
        ClipId(fresh_uuid_bits())
    }
}

impl Default for ClipId {
    fn default() -> Self {
        ClipId::new()
    }
}

/// Playback speed as the exact fraction `num / den`: 2/1 is double
/// speed, 1/2 is half speed. Both parts must be positive for a clip to
/// be usable; a zero part is a caller error, not silently corrected.
#[derive(Debug, Clone, Copy, PartialEq, Eq, Structural)]
pub struct Speed {
    pub num: u32,
    pub den: u32,
}

impl Speed {
    /// Both parts of the fraction are positive.
    pub open spec fn wf(&self) -> bool {
        self.num > 0 && self.den > 0
    }

    pub fn new(num: u32, den: u32) -> (r: Self)
        ensures
            r.num == num,
            r.den == den,
    {
        Speed { num, den }
    }

    /// Normal playback speed, 1/1.
    pub fn normal() -> (r: Self)
        ensures
            r.num == 1,
            r.den == 1,
    {
        Speed { num: 1, den: 1 }
    }
}

/// A placement of source media on the timeline: where it starts, which
/// part of the source it shows (`[source_in, source_out)`), how fast it
/// plays, and how it composites. Its timeline duration is always derived
/// from the source range and speed, never stored.
#[derive(Debug, Clone)]
pub struct Clip {
    pub id: ClipId,
    pub name: String,
    /// Reference to the source media item, resolved by an external store.
    pub source_media: MediaId,
    /// Timeline instant where the clip starts.
    pub timeline_position: Timecode,
    /// In point within the source media.
    pub source_in: Timecode,
    /// Out point within the source media (exclusive).
    pub source_out: Timecode,
    /// Speed fraction; the timeline duration is the source span divided by it.
    pub speed: Speed,
    /// Blend mode for compositing.
    pub blend_mode: BlendMode,
    /// Effects applied to the clip, in application order.
    pub effects: Vec<EffectType>,
}

impl Clip {
    /// Nanoseconds of source media between the in and out points.
    pub open spec fn spec_source_span(&self) -> int {
        self.source_out@ - self.source_in@
    }

    /// Derived duration on the timeline: the source span divided by the
    /// speed fraction, truncated to whole nanoseconds.
    pub open spec fn spec_duration_ns(&self) -> int {
        self.spec_source_span() * self.speed.den / (self.speed.num as int)
    }

    /// First timeline instant past the clip.
    pub open spec fn spec_end_ns(&self) -> int {
        self.timeline_position@ + self.spec_duration_ns()
    }

    /// A usable clip: positive speed, out point at or after the in
    /// point, and a timeline end that fits in a `Timecode`.
    pub open spec fn wf(&self) -> bool {
        &&& self.speed.wf()
        &&& self.source_in@ <= self.source_out@
        &&& self.spec_end_ns() <= u64::MAX
    }

    /// Whether the clip covers timeline instant `t`, half-open at its end.
    pub open spec fn spec_contains_time(&self, t: int) -> bool {
        spec_range_contains(self.timeline_position@, self.spec_end_ns(), t)
    }

    /// The source instant that plays at timeline instant `t`: the offset
    /// into the clip scaled by the speed, added to the in point.
    pub open spec fn spec_source_time(&self, t: int) -> int {
        self.source_in@ + (t - self.timeline_position@) * self.speed.num / (self.speed.den as int)
    }

    /// The four containment checks used to test overlap with a range:
    /// an endpoint of either interval lies inside the other.
    pub open spec fn spec_overlaps(&self, range: TimeRange) -> bool {
        ||| spec_range_contains(self.timeline_position@, self.spec_end_ns(), range.start@)
        ||| spec_range_contains(self.timeline_position@, self.spec_end_ns(), range.spec_end())
        ||| spec_range_contains(range.start@, range.spec_end(), self.timeline_position@)
        ||| spec_range_contains(range.start@, range.spec_end(), self.spec_end_ns())
    }

    /// A new clip with a fresh id, normal speed, normal blending and no
    /// effects. The source range is not validated here: a clip with
    /// `source_out < source_in` is unusable until corrected.
    pub fn new(
        name: String,
        source_media: MediaId,
        timeline_position: Timecode,
        source_in: Timecode,
        source_out: Timecode,
    ) -> (r: Self)
        ensures
            r.name == name,
            r.source_media == source_media,
            r.timeline_position == timeline_position,
            r.source_in == source_in,
            r.source_out == source_out,
            r.speed.num == 1 && r.speed.den == 1,
            r.blend_mode == BlendMode::Normal,
            r.effects@.len() == 0,
    {
        Clip {
            id: ClipId::new(),
            name,
            source_media,
            timeline_position,
            source_in,
            source_out,
            speed: Speed::normal(),
            blend_mode: BlendMode::default(),
            effects: Vec::new(),
        }
    }

    /// Duration of the clip on the timeline: the source span divided by
    /// the speed fraction, truncated to whole nanoseconds.
    pub fn timeline_duration(&self) -> (r: Duration)
        requires
            self.wf(),
        ensures
            r@ == self.spec_duration_ns(),
    {
        let span: u64 = self.source_out.0.nanos - self.source_in.0.nanos;
        proof {
            lemma_mul_nonnegative(span as int, self.speed.den as int);
            lemma_mul_inequality(span as int, u64::MAX as int, self.speed.den as int);
            lemma_div_pos_is_pos((span as int) * (self.speed.den as int), self.speed.num as int);
        }
        let scaled: u128 = (span as u128) * (self.speed.den as u128) / (self.speed.num as u128);
        Duration { nanos: scaled as u64 }
    }

    /// First timeline instant past the clip.
    pub fn timeline_end(&self) -> (r: Timecode)
        requires
            self.wf(),
        ensures
            r@ == self.spec_end_ns(),
    {
        let d = self.timeline_duration();
        Timecode(Duration { nanos: self.timeline_position.0.nanos + d.nanos })
    }

    /// Whether the clip covers timeline instant `time`: true exactly
    /// when `timeline_position <= time < timeline_end`.
    pub fn contains_time(&self, time: Timecode) -> (r: bool)
        requires
            self.wf(),
        ensures
            r == self.spec_contains_time(time@),
    {
        let end = self.timeline_end();
        time.0.nanos >= self.timeline_position.0.nanos && time.0.nanos < end.0.nanos
    }

    /// Whether the clip's own half-open interval and `range` overlap,
    /// tested by the four endpoint containment checks.
    pub fn overlaps_with(&self, range: TimeRange) -> (r: bool)
        requires
            self.wf(),
            range.wf(),
        ensures
            r == self.spec_overlaps(range),
    {
        let clip_range = TimeRange::new(self.timeline_position, self.timeline_duration());
        clip_range.contains(range.start) || clip_range.contains(range.end()) || range.contains(
            clip_range.start,
        ) || range.contains(clip_range.end())
    }

    /// The source instant to present at timeline instant `timeline_time`,
    /// or `None` exactly when the clip does not cover that instant.
    pub fn timeline_to_source_time(&self, timeline_time: Timecode) -> (r: Option<Timecode>)
        requires
            self.wf(),
        ensures
            match r {
                Some(s) => self.spec_contains_time(timeline_time@) && s@ == self.spec_source_time(
                    timeline_time@,
                ),
                None => !self.spec_contains_time(timeline_time@),
            },
    {
        if !self.contains_time(timeline_time) {
            return None;
        }
        let offset: u64 = timeline_time.0.nanos - self.timeline_position.0.nanos;
        proof {
            lemma_mul_nonnegative(offset as int, self.speed.num as int);
            lemma_mul_inequality(offset as int, u64::MAX as int, self.speed.num as int);
            lemma_scaled_offset_below_span(
                offset as int,
                self.spec_source_span(),
                self.speed.num as int,
                self.speed.den as int,
            );
            lemma_div_pos_is_pos((offset as int) * (self.speed.num as int), self.speed.den as int);
        }
        let scaled: u128 = (offset as u128) * (self.speed.num as u128) / (self.speed.den as u128);
        Some(Timecode(Duration { nanos: self.source_in.0.nanos + (scaled as u64) }))
    }
}

/// An offset strictly inside the scaled duration maps back to strictly
/// inside the source span: `off < span * den / num` gives
/// `off * num / den < span`.
proof fn lemma_scaled_offset_below_span(off: int, span: int, num: int, den: int)
    requires
        0 <= off,
        0 < num,
        0 < den,
        off < span * den / num,
    ensures
        off * num / den < span,
{
    let dur = span * den / num;
    lemma_fundamental_div_mod(span * den, num);
    assert(dur * num <= span * den);
    lemma_mul_inequality(off + 1, dur, num);
    assert((off + 1) * num == off * num + num) by (nonlinear_arith);
    assert(off * num < span * den);
    assert(off * num < den * span);
    lemma_multiply_divide_lt(off * num, den, span);
}

/// For every usable clip and every covered timeline instant whose offset
/// scales exactly (no truncation in `offset * num / den`), mapping the
/// instant to source time and back through the inverse formula
/// `position + (source - source_in) * den / num` recovers it exactly.
pub proof fn lemma_source_time_round_trip(c: Clip, t: int)
    requires
        c.wf(),
        c.spec_contains_time(t),
        (t - c.timeline_position@) * c.speed.num % (c.speed.den as int) == 0,
    ensures
        c.timeline_position@ + (c.spec_source_time(t) - c.source_in@) * c.speed.den / (
        c.speed.num as int) == t,
{
    let off = t - c.timeline_position@;
    let num = c.speed.num as int;
    let den = c.speed.den as int;
    let k = off * num / den;
    lemma_fundamental_div_mod(off * num, den);
    assert(off * num == den * k);
    assert(k * den == off * num) by {
        vstd::arithmetic::mul::lemma_mul_is_commutative(k, den);
    }
    assert(c.spec_source_time(t) - c.source_in@ == k);
    assert((k * den) / num == off) by {
        assert(off * num == num * off) by {
            vstd::arithmetic::mul::lemma_mul_is_commutative(off, num);
        }
        lemma_div_multiples_vanish(off, num);
    }
}

} // verus!
