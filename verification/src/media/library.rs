//! The media library: a keyed store of every imported item.

use vstd::prelude::*;

use super::item::MediaItem;
use super::types::{MediaId, MediaType};
use crate::seq_util::{find_first, lemma_find_first_is};
use crate::text::{chars_of, contains_chars, contains_seq};
use crate::trusted::{lower_of, lowercase};

verus! {

/// No two items carry the same id.
pub open spec fn ids_unique(s: Seq<MediaItem>) -> bool {
    forall|i: int, j: int| 0 <= i < j < s.len() ==> s[i].id != s[j].id
}

/// Index of the first item with id `id`, or `s.len()` when absent.
pub open spec fn find_item_index(s: Seq<MediaItem>, id: MediaId) -> int {
    find_first(s, |it: MediaItem| it.id == id)
}

/// `find_item_index` finds the first item with the id, or the length.
pub proof fn lemma_find_item_index(s: Seq<MediaItem>, id: MediaId)
    ensures
        0 <= find_item_index(s, id) <= s.len(),
        forall|j: int| 0 <= j < find_item_index(s, id) ==> s[j].id != id,
        find_item_index(s, id) < s.len() ==> s[find_item_index(s, id)].id == id,
{
    crate::seq_util::lemma_find_first(s, |it: MediaItem| it.id == id);
}

/// The items of `s` with media type `mt`, in order.
pub open spec fn items_of_type(s: Seq<MediaItem>, mt: MediaType) -> Seq<MediaItem>
    decreases s.len(),
{
    if s.len() == 0 {
        Seq::empty()
    } else {
        let rest = items_of_type(s.drop_last(), mt);
        if s.last().media_type == mt {
            rest.push(s.last())
        } else {
            rest
        }
    }
}

/// The items of `s` whose lower-cased name contains `needle`, in order.
pub open spec fn items_matching(s: Seq<MediaItem>, needle: Seq<char>) -> Seq<MediaItem>
    decreases s.len(),
{
    if s.len() == 0 {
        Seq::empty()
    } else {
        let rest = items_matching(s.drop_last(), needle);
        if contains_seq(lower_of(s.last().name@), needle) {
            rest.push(s.last())
        } else {
            rest
        }
    }
}

/// The ids of the items of `s` whose matching entry of `present` is
/// false, in order.
pub open spec fn missing_ids(s: Seq<MediaItem>, present: Seq<bool>) -> Seq<MediaId>
    decreases s.len(),
{
    if s.len() == 0 {
        Seq::empty()
    } else {
        let rest = missing_ids(s.drop_last(), present.drop_last());
        if !present[s.len() - 1] {
            rest.push(s.last().id)
        } else {
            rest
        }
    }
}

/// Every imported item, in insertion order, with pairwise distinct ids.
/// The view of the library is its sequence of items.
#[derive(Debug, Clone)]
pub struct MediaLibrary {
    items: Vec<MediaItem>,
}

impl View for MediaLibrary {
    type V = Seq<MediaItem>;

    closed spec fn view(&self) -> Seq<MediaItem> {
        self.items@
    }
}

impl Default for MediaLibrary {
    /// An empty library.
    fn default() -> (r: Self)
        ensures
            r@.len() == 0,
            r.wf(),
    {
        MediaLibrary::new()
    }
}

impl MediaLibrary {
    /// No two items in the library share an id.
    pub open spec fn wf(&self) -> bool {
        ids_unique(self@)
    }

    /// An empty library.
    pub fn new() -> (r: Self)
        ensures
            r@.len() == 0,
            r.wf(),
    {
        MediaLibrary { items: Vec::new() }
    }

    /// Insert `item` under its id: it replaces the item already carrying
    /// that id, and is appended when the id is new. Returns the id.
    pub fn add_item(&mut self, item: MediaItem) -> (r: MediaId)
        requires
            old(self).wf(),
        ensures
            r == item.id,
            final(self).wf(),
            ({
                let s = old(self)@;
                let i = find_item_index(s, item.id);
                if i < s.len() {
                    final(self)@ == s.update(i, item)
                } else {
                    final(self)@ == s.push(item)
                }
            }),
    {
        let id = item.id;
        let mut i: usize = 0;
        while i < self.items.len() && !(self.items[i].id == id)
            invariant
                0 <= i <= self.items@.len(),
                forall|j: int| 0 <= j < i ==> self.items@[j].id != id,
                *self == *old(self),
                id == item.id,
            decreases self.items@.len() - i,
        {
            i += 1;
        }
        proof {
            lemma_find_first_is(self.items@, |it: MediaItem| it.id == item.id, i as int);
        }
        let ghost s = self.items@;
        let ghost k = i as int;
        if i < self.items.len() {
            let slot = &mut self.items[i];
            *slot = item;
            proof {
                let s2 = self.items@;
                assert forall|a: int, b: int|
                    0 <= a < b < s2.len() implies s2[a].id != s2[b].id by {
                    assert(s[a].id != s[b].id);
                    if a == k {
                        assert(s2[a].id == s[a].id && s2[b] == s[b]);
                    } else if b == k {
                        assert(s2[b].id == s[b].id && s2[a] == s[a]);
                    } else {
                        assert(s2[a] == s[a] && s2[b] == s[b]);
                    }
                }
            }
        } else {
            self.items.push(item);
            proof {
                let s2 = self.items@;
                assert forall|a: int, b: int|
                    0 <= a < b < s2.len() implies s2[a].id != s2[b].id by {
                    if b < k {
                        assert(s2[a] == s[a] && s2[b] == s[b]);
                    } else {
                        assert(s2[b] == item && s2[a] == s[a]);
                    }
                }
            }
        }
        id
    }

    /// Remove and return the item with id `id`; `None`, with the
    /// library unchanged, exactly when no item carries it.
    pub fn remove_item(&mut self, id: &MediaId) -> (r: Option<MediaItem>)
        ensures
            ({
                let s = old(self)@;
                let i = find_item_index(s, *id);
                if i < s.len() {
                    r == Some(s[i]) && final(self)@ == s.remove(i)
                } else {
                    r == None::<MediaItem> && final(self)@ == s
                }
            }),
            old(self).wf() ==> final(self).wf(),
    {
        let mut i: usize = 0;
        while i < self.items.len() && !(self.items[i].id == *id)
            invariant
                0 <= i <= self.items@.len(),
                forall|j: int| 0 <= j < i ==> self.items@[j].id != *id,
                *self == *old(self),
            decreases self.items@.len() - i,
        {
            i += 1;
        }
        proof {
            lemma_find_first_is(self.items@, |it: MediaItem| it.id == *id, i as int);
        }
        if i < self.items.len() {
            let removed = self.items.remove(i);
            proof {
                let s = old(self)@;
                let s2 = self@;
                let k = i as int;
                if old(self).wf() {
                    assert forall|a: int, b: int|
                        0 <= a < b < s2.len() implies s2[a].id != s2[b].id by {
                        if a < k {
                            assert(s2[a] == s[a]);
                        } else {
                            assert(s2[a] == s[a + 1]);
                        }
                        if b < k {
                            assert(s2[b] == s[b]);
                        } else {
                            assert(s2[b] == s[b + 1]);
                        }
                    }
                }
            }
            Some(removed)
        } else {
            None
        }
    }

    /// The item with id `id`; `None` exactly when no item carries it.
    pub fn get_item(&self, id: &MediaId) -> (r: Option<&MediaItem>)
        ensures
            ({
                let i = find_item_index(self@, *id);
                match r {
                    Some(it) => i < self@.len() && *it == self@[i],
                    None => i == self@.len(),
                }
            }),
    {
        let mut i: usize = 0;
        while i < self.items.len() && !(self.items[i].id == *id)
            invariant
                0 <= i <= self.items@.len(),
                forall|j: int| 0 <= j < i ==> self.items@[j].id != *id,
            decreases self.items@.len() - i,
        {
            i += 1;
        }
        proof {
            lemma_find_first_is(self.items@, |it: MediaItem| it.id == *id, i as int);
        }
        if i < self.items.len() {
            Some(&self.items[i])
        } else {
            None
        }
    }

    /// Like `get_item`, but the match is returned as a mutable
    /// reference; the library afterwards holds whatever the caller
    /// leaves in it, and stays well formed if the id was not changed
    /// to one already present.
    pub fn get_item_mut(&mut self, id: &MediaId) -> (r: Option<&mut MediaItem>)
        ensures
            ({
                let s = old(self)@;
                let i = find_item_index(s, *id);
                match r {
                    Some(it) => {
                        &&& i < s.len()
                        &&& *it == s[i]
                        &&& final(self)@ == s.update(i, *final(it))
                        &&& (old(self).wf() && final(it).id == s[i].id ==> final(self).wf())
                    },
                    None => i == s.len() && *final(self) == *old(self),
                }
            }),
    {
        let mut i: usize = 0;
        while i < self.items.len() && !(self.items[i].id == *id)
            invariant
                0 <= i <= self.items@.len(),
                forall|j: int| 0 <= j < i ==> self.items@[j].id != *id,
                *self == *old(self),
            decreases self.items@.len() - i,
        {
            i += 1;
        }
        proof {
            lemma_find_first_is(self.items@, |it: MediaItem| it.id == *id, i as int);
        }
        if i < self.items.len() {
            Some(&mut self.items[i])
        } else {
            None
        }
    }

    /// Every item, in insertion order.
    pub fn items(&self) -> (r: Vec<&MediaItem>)
        ensures
            r@.map_values(|it: &MediaItem| *it) == self@,
    {
        let mut res: Vec<&MediaItem> = Vec::new();
        proof {
            assert(res@.map_values(|it: &MediaItem| *it) =~= self@.subrange(0, 0));
        }
        let mut i: usize = 0;
        while i < self.items.len()
            invariant
                0 <= i <= self.items@.len(),
                res@.len() == i,
                res@.map_values(|it: &MediaItem| *it) == self@.subrange(0, i as int),
            decreases self.items@.len() - i,
        {
            let ghost res0 = res@;
            let item_ref = &self.items[i];
            res.push(item_ref);
            proof {
                assert(*item_ref == self@[i as int]);
                let m2 = res@.map_values(|it: &MediaItem| *it);
                let m1 = res0.map_values(|it: &MediaItem| *it);
                assert forall|k: int| 0 <= k < m2.len() implies #[trigger] m2[k] == self@.subrange(
                    0,
                    i + 1,
                )[k] by {
                    if k < i as int {
                        assert(res@[k] == res0[k]);
                        assert(m1[k] == self@.subrange(0, i as int)[k]);
                    } else {
                        assert(res@[k] == item_ref);
                    }
                }
                assert(res@.map_values(|it: &MediaItem| *it) =~= self@.subrange(0, i + 1));
            }
            i += 1;
        }
        proof {
            assert(self@.subrange(0, self@.len() as int) =~= self@);
        }
        res
    }

    /// The items of one media type, in insertion order.
    fn items_with_type(&self, mt: MediaType) -> (r: Vec<&MediaItem>)
        ensures
            r@.map_values(|it: &MediaItem| *it) == items_of_type(self@, mt),
    {
        let mut res: Vec<&MediaItem> = Vec::new();
        let mut i: usize = 0;
        while i < self.items.len()
            invariant
                0 <= i <= self.items@.len(),
                res@.map_values(|it: &MediaItem| *it) == items_of_type(
                    self@.subrange(0, i as int),
                    mt,
                ),
            decreases self.items@.len() - i,
        {
            let ghost prefix = self@.subrange(0, i as int);
            if self.items[i].media_type == mt {
                res.push(&self.items[i]);
            }
            proof {
                let longer = self@.subrange(0, i + 1);
                assert(longer.drop_last() =~= prefix);
                assert(longer.last() == self@[i as int]);
                assert(res@.map_values(|it: &MediaItem| *it) =~= items_of_type(longer, mt));
            }
            i += 1;
        }
        proof {
            assert(self@.subrange(0, self@.len() as int) =~= self@);
        }
        res
    }

    /// The video items, in insertion order.
    pub fn video_items(&self) -> (r: Vec<&MediaItem>)
        ensures
            r@.map_values(|it: &MediaItem| *it) == items_of_type(self@, MediaType::Video),
    {
        self.items_with_type(MediaType::Video)
    }

    /// The audio items, in insertion order.
    pub fn audio_items(&self) -> (r: Vec<&MediaItem>)
        ensures
            r@.map_values(|it: &MediaItem| *it) == items_of_type(self@, MediaType::Audio),
    {
        self.items_with_type(MediaType::Audio)
    }

    /// The image items, in insertion order.
    pub fn image_items(&self) -> (r: Vec<&MediaItem>)
        ensures
            r@.map_values(|it: &MediaItem| *it) == items_of_type(self@, MediaType::Image),
    {
        self.items_with_type(MediaType::Image)
    }

    /// The items whose name contains `query`, both compared in lower
    /// case, in insertion order.
    pub fn search(&self, query: &str) -> (r: Vec<&MediaItem>)
        ensures
            r@.map_values(|it: &MediaItem| *it) == items_matching(self@, lower_of(query@)),
    {
        let q = lowercase(query);
        let qchars = chars_of(q.as_str());
        let mut res: Vec<&MediaItem> = Vec::new();
        proof {
            assert(res@.map_values(|it: &MediaItem| *it) =~= items_matching(
                self@.subrange(0, 0),
                lower_of(query@),
            ));
        }
        let mut i: usize = 0;
        while i < self.items.len()
            invariant
                0 <= i <= self.items@.len(),
                qchars@ == lower_of(query@),
                res@.map_values(|it: &MediaItem| *it) == items_matching(
                    self@.subrange(0, i as int),
                    lower_of(query@),
                ),
            decreases self.items@.len() - i,
        {
            let ghost prefix = self@.subrange(0, i as int);
            let name_lower = lowercase(self.items[i].name.as_str());
            let nchars = chars_of(name_lower.as_str());
            if contains_chars(&nchars, &qchars) {
                res.push(&self.items[i]);
            }
            proof {
                let longer = self@.subrange(0, i + 1);
                assert(longer.drop_last() =~= prefix);
                assert(longer.last() == self@[i as int]);
                assert(res@.map_values(|it: &MediaItem| *it) =~= items_matching(
                    longer,
                    lower_of(query@),
                ));
            }
            i += 1;
        }
        proof {
            assert(self@.subrange(0, self@.len() as int) =~= self@);
        }
        res
    }

    /// How many items the library holds.
    pub fn count(&self) -> (r: usize)
        ensures
            r == self@.len(),
    {
        self.items.len()
    }

    /// Remove every item.
    pub fn clear(&mut self)
        ensures
            final(self)@.len() == 0,
            final(self).wf(),
    {
        self.items.clear();
    }

    /// The ids of the items reported absent: `present` says, item by
    /// item in insertion order, whether the item's file exists, and the
    /// result lists the ids whose entry is false, in the same order.
    pub fn verify_files(&self, present: &Vec<bool>) -> (r: Vec<MediaId>)
        requires
            present@.len() == self@.len(),
        ensures
            r@ == missing_ids(self@, present@),
    {
        let mut res: Vec<MediaId> = Vec::new();
        proof {
            assert(res@ =~= missing_ids(self@.subrange(0, 0), present@.subrange(0, 0)));
        }
        let mut i: usize = 0;
        while i < self.items.len()
            invariant
                0 <= i <= self.items@.len(),
                present@.len() == self@.len(),
                res@ == missing_ids(self@.subrange(0, i as int), present@.subrange(0, i as int)),
            decreases self.items@.len() - i,
        {
            let ghost sp = self@.subrange(0, i as int);
            let ghost pp = present@.subrange(0, i as int);
            if !present[i] {
                let id = self.items[i].id;
                res.push(id);
            }
            proof {
                let sl = self@.subrange(0, i + 1);
                let pl = present@.subrange(0, i + 1);
                assert(sl.drop_last() =~= sp);
                assert(pl.drop_last() =~= pp);
                assert(sl.last() == self@[i as int]);
                assert(pl[sl.len() - 1] == present@[i as int]);
                assert(res@ =~= missing_ids(sl, pl));
            }
            i += 1;
        }
        proof {
            assert(self@.subrange(0, self@.len() as int) =~= self@);
            assert(present@.subrange(0, present@.len() as int) =~= present@);
        }
        res
    }
}

} // verus!
