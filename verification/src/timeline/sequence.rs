//! A sequence: the composition root holding video and audio tracks.

use vstd::prelude::*;

use super::clip::Clip;
use super::track::{first_containing_index, Track, TrackId, TrackType};
use crate::seq_util::{find_first, lemma_find_first_is};
use crate::types::{Duration, FrameRate, Resolution, Timecode};

verus! {

/// Every track in the list is well formed.
pub open spec fn tracks_wf(ts: Seq<Track>) -> bool {
    forall|i: int| 0 <= i < ts.len() ==> ts[i].wf()
}

/// Index of the first track with id `id`, or `ts.len()` when absent.
pub open spec fn find_track_index(ts: Seq<Track>, id: TrackId) -> int {
    find_first(ts, |t: Track| t.id == id)
}

/// `find_track_index` finds the first track with the id, or the length.
pub proof fn lemma_find_track_index(ts: Seq<Track>, id: TrackId)
    ensures
        0 <= find_track_index(ts, id) <= ts.len(),
        forall|j: int| 0 <= j < find_track_index(ts, id) ==> ts[j].id != id,
        find_track_index(ts, id) < ts.len() ==> ts[find_track_index(ts, id)].id == id,
{
    crate::seq_util::lemma_find_first(ts, |t: Track| t.id == id);
}

/// The larger of two integers.
pub open spec fn int_max(a: int, b: int) -> int {
    if a > b {
        a
    } else {
        b
    }
}

/// The largest clip end instant in `s`, or zero when `s` is empty.
pub open spec fn max_end_of_clips(s: Seq<Clip>) -> int
    decreases s.len(),
{
    if s.len() == 0 {
        0
    } else {
        let rest = max_end_of_clips(s.drop_last());
        let e = s.last().spec_end_ns();
        if e > rest {
            e
        } else {
            rest
        }
    }
}

/// The largest clip end instant across every track of `ts`, or zero.
pub open spec fn max_end_of_tracks(ts: Seq<Track>) -> int
    decreases ts.len(),
{
    if ts.len() == 0 {
        0
    } else {
        let rest = max_end_of_tracks(ts.drop_last());
        let e = max_end_of_clips(ts.last().clips@);
        if e > rest {
            e
        } else {
            rest
        }
    }
}

/// One clip per track of `ts` that covers instant `t` (the track's
/// first such clip), in track order; tracks with no covering clip
/// contribute nothing.
pub open spec fn clips_at_time(ts: Seq<Track>, t: int) -> Seq<Clip>
    decreases ts.len(),
{
    if ts.len() == 0 {
        Seq::empty()
    } else {
        let rest = clips_at_time(ts.drop_last(), t);
        let tr = ts.last();
        let i = first_containing_index(tr.clips@, t);
        if i < tr.clips@.len() {
            rest.push(tr.clips@[i])
        } else {
            rest
        }
    }
}

/// The top-level timeline composition: parallel video and audio tracks
/// with a shared frame rate, resolution and playhead. The order of the
/// video list is the compositing z-order, bottom first.
#[derive(Debug, Clone)]
pub struct Sequence {
    pub name: String,
    pub frame_rate: FrameRate,
    pub resolution: Resolution,
    /// Video tracks, bottom of the compositing stack first.
    pub video_tracks: Vec<Track>,
    /// Audio tracks, in insertion order.
    pub audio_tracks: Vec<Track>,
    /// Current playhead position, moved by callers and not validated here.
    pub playhead: Timecode,
}

impl Sequence {
    /// Every track in both lists is well formed.
    pub open spec fn wf(&self) -> bool {
        tracks_wf(self.video_tracks@) && tracks_wf(self.audio_tracks@)
    }

    /// The duration: the largest clip end over all tracks, or zero.
    pub open spec fn spec_duration(&self) -> int {
        int_max(
            max_end_of_tracks(self.video_tracks@),
            max_end_of_tracks(self.audio_tracks@),
        )
    }

    /// An empty sequence with the playhead at zero.
    pub fn new(name: String, frame_rate: FrameRate, resolution: Resolution) -> (r: Self)
        ensures
            r.name == name,
            r.frame_rate == frame_rate,
            r.resolution == resolution,
            r.video_tracks@.len() == 0,
            r.audio_tracks@.len() == 0,
            r.playhead@ == 0,
            r.wf(),
    {
        Sequence {
            name,
            frame_rate,
            resolution,
            video_tracks: Vec::new(),
            audio_tracks: Vec::new(),
            playhead: Timecode::from_seconds(0),
        }
    }

    /// Append `track` to the video or audio list according to its type,
    /// preserving insertion order (which is the z-order for video).
    pub fn add_track(&mut self, track: Track)
        ensures
            track.track_type == TrackType::Video ==> final(self).video_tracks@ == old(
                self,
            ).video_tracks@.push(track) && final(self).audio_tracks@ == old(self).audio_tracks@,
            track.track_type == TrackType::Audio ==> final(self).audio_tracks@ == old(
                self,
            ).audio_tracks@.push(track) && final(self).video_tracks@ == old(self).video_tracks@,
            final(self).name == old(self).name,
            final(self).frame_rate == old(self).frame_rate,
            final(self).resolution == old(self).resolution,
            final(self).playhead == old(self).playhead,
            old(self).wf() && track.wf() ==> final(self).wf(),
    {
        match track.track_type {
            TrackType::Video => self.video_tracks.push(track),
            TrackType::Audio => self.audio_tracks.push(track),
        }
    }

    /// The first track whose id matches, searching the video list and
    /// then the audio list; `None` exactly when no track has the id.
    pub fn get_track(&self, track_id: TrackId) -> (r: Option<&Track>)
        ensures
            ({
                let all = self.video_tracks@ + self.audio_tracks@;
                let i = find_track_index(all, track_id);
                match r {
                    Some(t) => i < all.len() && *t == all[i],
                    None => i == all.len(),
                }
            }),
    {
        let ghost all = self.video_tracks@ + self.audio_tracks@;
        let mut i: usize = 0;
        while i < self.video_tracks.len() && !(self.video_tracks[i].id == track_id)
            invariant
                0 <= i <= self.video_tracks@.len(),
                forall|j: int| 0 <= j < i ==> self.video_tracks@[j].id != track_id,
            decreases self.video_tracks@.len() - i,
        {
            i += 1;
        }
        if i < self.video_tracks.len() {
            proof {
                assert forall|j: int| 0 <= j < i implies all[j].id != track_id by {
                    assert(all[j] == self.video_tracks@[j]);
                }
                assert(all[i as int] == self.video_tracks@[i as int]);
                lemma_find_first_is(all, |t: Track| t.id == track_id, i as int);
            }
            return Some(&self.video_tracks[i]);
        }
        let vlen = self.video_tracks.len();
        let mut k: usize = 0;
        while k < self.audio_tracks.len() && !(self.audio_tracks[k].id == track_id)
            invariant
                0 <= k <= self.audio_tracks@.len(),
                forall|j: int| 0 <= j < k ==> self.audio_tracks@[j].id != track_id,
            decreases self.audio_tracks@.len() - k,
        {
            k += 1;
        }
        proof {
            assert forall|j: int| 0 <= j < vlen + k implies all[j].id != track_id by {
                if j < vlen {
                    assert(all[j] == self.video_tracks@[j]);
                } else {
                    assert(all[j] == self.audio_tracks@[j - vlen]);
                }
            }
            if k < self.audio_tracks@.len() {
                assert(all[vlen + k] == self.audio_tracks@[k as int]);
                lemma_find_first_is(all, |t: Track| t.id == track_id, vlen + k);
            } else {
                lemma_find_first_is(all, |t: Track| t.id == track_id, all.len() as int);
            }
        }
        if k < self.audio_tracks.len() {
            Some(&self.audio_tracks[k])
        } else {
            None
        }
    }

    /// Like `get_track`, but the match is returned as a mutable
    /// reference; the sequence afterwards carries whatever the caller
    /// leaves in that track, and nothing else changes.
    pub fn get_track_mut(&mut self, track_id: TrackId) -> (r: Option<&mut Track>)
        ensures
            ({
                let all = old(self).video_tracks@ + old(self).audio_tracks@;
                let vlen = old(self).video_tracks@.len() as int;
                let i = find_track_index(all, track_id);
                match r {
                    Some(t) => {
                        &&& i < all.len()
                        &&& *t == all[i]
                        &&& (i < vlen ==> final(self).video_tracks@ == old(
                            self,
                        ).video_tracks@.update(i, *final(t)) && final(self).audio_tracks@ == old(
                            self,
                        ).audio_tracks@)
                        &&& (i >= vlen ==> final(self).audio_tracks@ == old(
                            self,
                        ).audio_tracks@.update(i - vlen, *final(t)) && final(self).video_tracks@
                            == old(self).video_tracks@)
                        &&& final(self).name == old(self).name
                        &&& final(self).frame_rate == old(self).frame_rate
                        &&& final(self).resolution == old(self).resolution
                        &&& final(self).playhead == old(self).playhead
                    },
                    None => i == all.len() && *final(self) == *old(self),
                }
            }),
    {
        let ghost all = self.video_tracks@ + self.audio_tracks@;
        let mut i: usize = 0;
        while i < self.video_tracks.len() && !(self.video_tracks[i].id == track_id)
            invariant
                0 <= i <= self.video_tracks@.len(),
                forall|j: int| 0 <= j < i ==> self.video_tracks@[j].id != track_id,
            decreases self.video_tracks@.len() - i,
        {
            i += 1;
        }
        if i < self.video_tracks.len() {
            proof {
                assert forall|j: int| 0 <= j < i implies all[j].id != track_id by {
                    assert(all[j] == self.video_tracks@[j]);
                }
                assert(all[i as int] == self.video_tracks@[i as int]);
                lemma_find_first_is(all, |t: Track| t.id == track_id, i as int);
            }
            return Some(&mut self.video_tracks[i]);
        }
        let vlen = self.video_tracks.len();
        let mut k: usize = 0;
        while k < self.audio_tracks.len() && !(self.audio_tracks[k].id == track_id)
            invariant
                0 <= k <= self.audio_tracks@.len(),
                forall|j: int| 0 <= j < k ==> self.audio_tracks@[j].id != track_id,
            decreases self.audio_tracks@.len() - k,
        {
            k += 1;
        }
        proof {
            assert forall|j: int| 0 <= j < vlen + k implies all[j].id != track_id by {
                if j < vlen {
                    assert(all[j] == self.video_tracks@[j]);
                } else {
                    assert(all[j] == self.audio_tracks@[j - vlen]);
                }
            }
            if k < self.audio_tracks@.len() {
                assert(all[vlen + k] == self.audio_tracks@[k as int]);
                lemma_find_first_is(all, |t: Track| t.id == track_id, vlen + k);
            } else {
                lemma_find_first_is(all, |t: Track| t.id == track_id, all.len() as int);
            }
        }
        if k < self.audio_tracks.len() {
            Some(&mut self.audio_tracks[k])
        } else {
            None
        }
    }

    /// The total duration: the largest clip end instant over every clip
    /// in every track, video and audio together, or the zero timecode
    /// for a sequence with no clips.
    pub fn duration(&self) -> (r: Timecode)
        requires
            self.wf(),
        ensures
            r@ == self.spec_duration(),
    {
        let v = fold_max_end(&self.video_tracks, 0);
        let best = fold_max_end(&self.audio_tracks, v);
        Timecode(Duration { nanos: best })
    }

    /// The video clips visible at `time`, one per covering track, in
    /// z-order (bottom track first): exactly the compositing stack.
    pub fn video_clips_at_time(&self, time: Timecode) -> (r: Vec<&Clip>)
        requires
            tracks_wf(self.video_tracks@),
        ensures
            r@.map_values(|c: &Clip| *c) == clips_at_time(self.video_tracks@, time@),
    {
        collect_clips_at(&self.video_tracks, time)
    }

    /// The audio clips audible at `time`, one per covering track, in
    /// track order.
    pub fn audio_clips_at_time(&self, time: Timecode) -> (r: Vec<&Clip>)
        requires
            tracks_wf(self.audio_tracks@),
        ensures
            r@.map_values(|c: &Clip| *c) == clips_at_time(self.audio_tracks@, time@),
    {
        collect_clips_at(&self.audio_tracks, time)
    }
}

/// The largest clip end in `clips`, folded into `acc`.
fn fold_max_end_clips(clips: &Vec<Clip>, acc: u64) -> (r: u64)
    requires
        super::track::clips_wf(clips@),
    ensures
        r as int == int_max(acc as int, max_end_of_clips(clips@)),
{
    let mut best = acc;
    let mut i: usize = 0;
    while i < clips.len()
        invariant
            0 <= i <= clips@.len(),
            super::track::clips_wf(clips@),
            best as int == int_max(acc as int, max_end_of_clips(clips@.subrange(0, i as int))),
        decreases clips@.len() - i,
    {
        let ghost prefix = clips@.subrange(0, i as int);
        let e = clips[i].timeline_end();
        if e.0.nanos > best {
            best = e.0.nanos;
        }
        proof {
            let longer = clips@.subrange(0, i + 1);
            assert(longer.drop_last() =~= prefix);
            assert(longer.last() == clips@[i as int]);
        }
        i += 1;
    }
    proof {
        assert(clips@.subrange(0, clips@.len() as int) =~= clips@);
    }
    best
}

/// The largest clip end across every track of `tracks`, folded into `acc`.
fn fold_max_end(tracks: &Vec<Track>, acc: u64) -> (r: u64)
    requires
        tracks_wf(tracks@),
    ensures
        r as int == int_max(acc as int, max_end_of_tracks(tracks@)),
{
    let mut best = acc;
    let mut i: usize = 0;
    while i < tracks.len()
        invariant
            0 <= i <= tracks@.len(),
            tracks_wf(tracks@),
            best as int == int_max(acc as int, max_end_of_tracks(tracks@.subrange(0, i as int))),
        decreases tracks@.len() - i,
    {
        let ghost prefix = tracks@.subrange(0, i as int);
        best = fold_max_end_clips(&tracks[i].clips, best);
        proof {
            let longer = tracks@.subrange(0, i + 1);
            assert(longer.drop_last() =~= prefix);
            assert(longer.last() == tracks@[i as int]);
        }
        i += 1;
    }
    proof {
        assert(tracks@.subrange(0, tracks@.len() as int) =~= tracks@);
    }
    best
}

/// One covering clip per track of `tracks`, in track order.
fn collect_clips_at<'a>(tracks: &'a Vec<Track>, time: Timecode) -> (r: Vec<&'a Clip>)
    requires
        tracks_wf(tracks@),
    ensures
        r@.map_values(|c: &Clip| *c) == clips_at_time(tracks@, time@),
{
    let mut res: Vec<&Clip> = Vec::new();
    let mut i: usize = 0;
    while i < tracks.len()
        invariant
            0 <= i <= tracks@.len(),
            tracks_wf(tracks@),
            res@.map_values(|c: &Clip| *c) == clips_at_time(tracks@.subrange(0, i as int), time@),
        decreases tracks@.len() - i,
    {
        let ghost prefix = tracks@.subrange(0, i as int);
        match tracks[i].clip_at_time(time) {
            Some(c) => res.push(c),
            None => {},
        }
        proof {
            let longer = tracks@.subrange(0, i + 1);
            assert(longer.drop_last() =~= prefix);
            assert(longer.last() == tracks@[i as int]);
            assert(res@.map_values(|c: &Clip| *c) =~= clips_at_time(longer, time@));
        }
        i += 1;
    }
    proof {
        assert(tracks@.subrange(0, tracks@.len() as int) =~= tracks@);
    }
    res
}

} // verus!
