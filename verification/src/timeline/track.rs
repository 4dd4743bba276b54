//! A track: an ordered lane of clips of one media kind.

use vstd::prelude::*;

use super::clip::{Clip, ClipId};
use crate::seq_util::{find_first, lemma_find_first, lemma_find_first_is};
use crate::types::{TimeRange, Timecode};

verus! {

/// Identifier for a track within a sequence, assigned by the caller and
/// stable for the track's lifetime.
#[derive(Debug, Clone, Copy, PartialEq, Eq, Hash, Structural)]
pub struct TrackId(pub usize);

/// The kind of media a track carries.
#[derive(Debug, Clone, Copy, PartialEq, Eq, Structural)]
pub enum TrackType {
    Video,
    Audio,
}

/// The clips are sorted by ascending timeline position.
pub open spec fn clips_sorted(s: Seq<Clip>) -> bool {
    forall|i: int, j: int|
        0 <= i < j < s.len() ==> s[i].timeline_position@ <= s[j].timeline_position@
}

/// Every clip in the sequence is usable.
pub open spec fn clips_wf(s: Seq<Clip>) -> bool {
    forall|i: int| 0 <= i < s.len() ==> s[i].wf()
}

/// Index at which a clip at position `pos` is inserted: after every
/// clip at or before `pos`, before the first one strictly past it.
pub open spec fn insert_index_of(s: Seq<Clip>, pos: int) -> int {
    find_first(s, |c: Clip| c.timeline_position@ > pos)
}

/// Index of the first clip with id `id`, or `s.len()` when absent.
pub open spec fn find_clip_index(s: Seq<Clip>, id: ClipId) -> int {
    find_first(s, |c: Clip| c.id == id)
}

/// Index of the first clip covering instant `t`, or `s.len()`.
pub open spec fn first_containing_index(s: Seq<Clip>, t: int) -> int {
    find_first(s, |c: Clip| c.spec_contains_time(t))
}

/// The clips of `s` that overlap `range`, in their order in `s`.
pub open spec fn overlapping_clips(s: Seq<Clip>, range: TimeRange) -> Seq<Clip>
    decreases s.len(),
{
    if s.len() == 0 {
        Seq::empty()
    } else {
        let rest = overlapping_clips(s.drop_last(), range);
        if s.last().spec_overlaps(range) {
            rest.push(s.last())
        } else {
            rest
        }
    }
}

/// `insert_index_of` splits the sequence: clips before it sit at or
/// before `pos`, the clip at it (if any) sits strictly past `pos`.
pub proof fn lemma_insert_index_of(s: Seq<Clip>, pos: int)
    ensures
        0 <= insert_index_of(s, pos) <= s.len(),
        forall|j: int| 0 <= j < insert_index_of(s, pos) ==> s[j].timeline_position@ <= pos,
        insert_index_of(s, pos) < s.len() ==> s[insert_index_of(s, pos)].timeline_position@ > pos,
{
    lemma_find_first(s, |c: Clip| c.timeline_position@ > pos);
}

/// `find_clip_index` finds the first clip with the id, or the length.
pub proof fn lemma_find_clip_index(s: Seq<Clip>, id: ClipId)
    ensures
        0 <= find_clip_index(s, id) <= s.len(),
        forall|j: int| 0 <= j < find_clip_index(s, id) ==> s[j].id != id,
        find_clip_index(s, id) < s.len() ==> s[find_clip_index(s, id)].id == id,
{
    lemma_find_first(s, |c: Clip| c.id == id);
}

/// `first_containing_index` finds the first clip covering `t`, or the length.
pub proof fn lemma_first_containing_index(s: Seq<Clip>, t: int)
    ensures
        0 <= first_containing_index(s, t) <= s.len(),
        forall|j: int| 0 <= j < first_containing_index(s, t) ==> !s[j].spec_contains_time(t),
        first_containing_index(s, t) < s.len() ==> s[first_containing_index(
            s,
            t,
        )].spec_contains_time(t),
{
    lemma_find_first(s, |c: Clip| c.spec_contains_time(t));
}

/// An ordered lane of clips of one media kind. All mutations keep the
/// clip list sorted by ascending timeline position; overlap between
/// clips on one track is not forbidden, and queries resolve it by
/// first-in-sorted-order wins.
#[derive(Debug, Clone)]
pub struct Track {
    pub id: TrackId,
    pub name: String,
    pub track_type: TrackType,
    /// Clips, kept sorted by ascending timeline position.
    pub clips: Vec<Clip>,
    pub muted: bool,
    pub locked: bool,
}

impl Track {
    /// The clip list is sorted and every clip in it is usable.
    pub open spec fn wf(&self) -> bool {
        clips_sorted(self.clips@) && clips_wf(self.clips@)
    }

    /// An empty track.
    pub fn new(id: TrackId, name: String, track_type: TrackType) -> (r: Self)
        ensures
            r.id == id,
            r.name == name,
            r.track_type == track_type,
            r.clips@.len() == 0,
            !r.muted,
            !r.locked,
            r.wf(),
    {
        Track { id, name, track_type, clips: Vec::new(), muted: false, locked: false }
    }

    /// Insert `clip` at its sorted position: after every clip at or
    /// before its timeline position, so among equal positions the newest
    /// comes last. The list stays sorted.
    pub fn add_clip(&mut self, clip: Clip)
        requires
            old(self).wf(),
            clip.wf(),
        ensures
            final(self).clips@ == old(self).clips@.insert(
                insert_index_of(old(self).clips@, clip.timeline_position@),
                clip,
            ),
            final(self).wf(),
            final(self).id == old(self).id,
            final(self).name == old(self).name,
            final(self).track_type == old(self).track_type,
            final(self).muted == old(self).muted,
            final(self).locked == old(self).locked,
    {
        let pos = clip.timeline_position.0.nanos;
        let mut i: usize = 0;
        while i < self.clips.len() && self.clips[i].timeline_position.0.nanos <= pos
            invariant
                0 <= i <= self.clips@.len(),
                forall|j: int| 0 <= j < i ==> self.clips@[j].timeline_position@ <= pos,
                *self == *old(self),
                pos == clip.timeline_position@,
            decreases self.clips@.len() - i,
        {
            i += 1;
        }
        proof {
            lemma_find_first_is(
                self.clips@,
                |c: Clip| c.timeline_position@ > clip.timeline_position@,
                i as int,
            );
        }
        self.clips.insert(i, clip);
        proof {
            let s = old(self).clips@;
            let s2 = self.clips@;
            let k = i as int;
            assert forall|a: int, b: int|
                0 <= a < b < s2.len() implies s2[a].timeline_position@
                <= s2[b].timeline_position@ by {
                if a < k {
                    assert(s2[a] == s[a]);
                } else if a == k {
                    assert(s2[a] == clip);
                } else {
                    assert(s2[a] == s[a - 1]);
                }
                if b < k {
                    assert(s2[b] == s[b]);
                } else if b == k {
                    assert(s2[b] == clip);
                } else {
                    assert(s2[b] == s[b - 1]);
                }
            }
            assert forall|a: int| 0 <= a < s2.len() implies s2[a].wf() by {
                if a < k {
                    assert(s2[a] == s[a]);
                } else if a == k {
                    assert(s2[a] == clip);
                } else {
                    assert(s2[a] == s[a - 1]);
                }
            }
        }
    }

    /// Remove and return the first clip whose id is `clip_id`, or
    /// `None`, leaving the track unchanged, exactly when no clip has
    /// that id.
    pub fn remove_clip(&mut self, clip_id: &ClipId) -> (r: Option<Clip>)
        ensures
            ({
                let s = old(self).clips@;
                let i = find_clip_index(s, *clip_id);
                if i < s.len() {
                    r == Some(s[i]) && final(self).clips@ == s.remove(i)
                } else {
                    r == None::<Clip> && final(self).clips@ == s
                }
            }),
            old(self).wf() ==> final(self).wf(),
            final(self).id == old(self).id,
            final(self).name == old(self).name,
            final(self).track_type == old(self).track_type,
            final(self).muted == old(self).muted,
            final(self).locked == old(self).locked,
    {
        let mut i: usize = 0;
        while i < self.clips.len() && !(self.clips[i].id == *clip_id)
            invariant
                0 <= i <= self.clips@.len(),
                forall|j: int| 0 <= j < i ==> self.clips@[j].id != *clip_id,
                *self == *old(self),
            decreases self.clips@.len() - i,
        {
            i += 1;
        }
        proof {
            lemma_find_first_is(self.clips@, |c: Clip| c.id == *clip_id, i as int);
        }
        if i < self.clips.len() {
            let removed = self.clips.remove(i);
            proof {
                let s = old(self).clips@;
                let s2 = self.clips@;
                let k = i as int;
                if old(self).wf() {
                    assert forall|a: int, b: int|
                        0 <= a < b < s2.len() implies s2[a].timeline_position@
                        <= s2[b].timeline_position@ by {
                        if a < k {
                            assert(s2[a] == s[a]);
                        } else {
                            assert(s2[a] == s[a + 1]);
                        }
                        if b < k {
                            assert(s2[b] == s[b]);
                        } else {
                            assert(s2[b] == s[b + 1]);
                        }
                    }
                    assert forall|a: int| 0 <= a < s2.len() implies s2[a].wf() by {
                        if a < k {
                            assert(s2[a] == s[a]);
                        } else {
                            assert(s2[a] == s[a + 1]);
                        }
                    }
                }
            }
            Some(removed)
        } else {
            None
        }
    }

    /// The first clip, in sorted order, that covers instant `time`:
    /// when clips overlap, first-by-position wins.
    pub fn clip_at_time(&self, time: Timecode) -> (r: Option<&Clip>)
        requires
            clips_wf(self.clips@),
        ensures
            ({
                let i = first_containing_index(self.clips@, time@);
                match r {
                    Some(c) => i < self.clips@.len() && *c == self.clips@[i],
                    None => i == self.clips@.len(),
                }
            }),
    {
        let mut i: usize = 0;
        while i < self.clips.len() && !self.clips[i].contains_time(time)
            invariant
                0 <= i <= self.clips@.len(),
                clips_wf(self.clips@),
                forall|j: int| 0 <= j < i ==> !self.clips@[j].spec_contains_time(time@),
            decreases self.clips@.len() - i,
        {
            i += 1;
        }
        proof {
            lemma_find_first_is(self.clips@, |c: Clip| c.spec_contains_time(time@), i as int);
        }
        if i < self.clips.len() {
            Some(&self.clips[i])
        } else {
            None
        }
    }

    /// All clips overlapping `range`, in track order.
    pub fn clips_in_range(&self, range: TimeRange) -> (r: Vec<&Clip>)
        requires
            clips_wf(self.clips@),
            range.wf(),
        ensures
            r@.map_values(|c: &Clip| *c) == overlapping_clips(self.clips@, range),
    {
        let mut res: Vec<&Clip> = Vec::new();
        let mut i: usize = 0;
        while i < self.clips.len()
            invariant
                0 <= i <= self.clips@.len(),
                clips_wf(self.clips@),
                range.wf(),
                res@.map_values(|c: &Clip| *c) == overlapping_clips(
                    self.clips@.subrange(0, i as int),
                    range,
                ),
            decreases self.clips@.len() - i,
        {
            let ghost prefix = self.clips@.subrange(0, i as int);
            if self.clips[i].overlaps_with(range) {
                res.push(&self.clips[i]);
            }
            proof {
                let longer = self.clips@.subrange(0, i + 1);
                assert(longer.drop_last() =~= prefix);
                assert(longer.last() == self.clips@[i as int]);
                assert(res@.map_values(|c: &Clip| *c) =~= overlapping_clips(longer, range));
            }
            i += 1;
        }
        proof {
            assert(self.clips@.subrange(0, self.clips@.len() as int) =~= self.clips@);
        }
        res
    }
}

/// Removing a clip by an id that exactly one clip carries returns that
/// clip and leaves the id absent, so a second removal with the same id
/// returns the absence signal and changes nothing.
pub proof fn lemma_remove_clip_idempotent(s: Seq<Clip>, id: ClipId)
    requires
        exists|i: int| 0 <= i < s.len() && s[i].id == id,
        forall|i: int, j: int| 0 <= i < j < s.len() && s[i].id == id ==> s[j].id != id,
    ensures
        ({
            let i = find_clip_index(s, id);
            &&& 0 <= i < s.len()
            &&& s[i].id == id
            &&& find_clip_index(s.remove(i), id) == s.remove(i).len()
        }),
{
    lemma_find_clip_index(s, id);
    let i = find_clip_index(s, id);
    let w = choose|w: int| 0 <= w < s.len() && s[w].id == id;
    assert(i < s.len());
    let s2 = s.remove(i);
    assert forall|j: int| 0 <= j < s2.len() implies s2[j].id != id by {
        if j < i {
            assert(s2[j] == s[j]);
        } else {
            assert(s2[j] == s[j + 1]);
        }
    }
    lemma_find_first_is(s2, |c: Clip| c.id == id, s2.len() as int);
}

} // verus!
