//! Timeline model: clips placed on tracks, tracks composed in sequences.

mod blend_mode;
mod clip;
mod sequence;
mod track;

pub use blend_mode::BlendMode;
pub use clip::{lemma_source_time_round_trip, Clip, ClipId, Speed};
pub use sequence::{
    clips_at_time, find_track_index, lemma_find_track_index, max_end_of_clips, max_end_of_tracks,
    tracks_wf, Sequence,
};
pub use track::{
    clips_sorted, clips_wf, find_clip_index, first_containing_index, insert_index_of,
    lemma_find_clip_index, lemma_first_containing_index, lemma_insert_index_of,
    lemma_remove_clip_idempotent, overlapping_clips, Track, TrackId, TrackType,
};
