//! A media item: one imported source file.

use vstd::prelude::*;

use super::metadata::MediaMetadata;
use super::types::{MediaId, MediaType};
use crate::text::{base_name, tail_component};
use crate::trusted::now_timestamp_millis;
use crate::types::NANOS_PER_SEC;

verus! {

/// One source file known to the project: an opaque id, a display name
/// derived from the path, the path itself, and probed metadata.
#[derive(Debug, Clone)]
pub struct MediaItem {
    pub id: MediaId,
    pub name: String,
    /// Path of the source file, with `/` as the separator.
    pub path: String,
    pub media_type: MediaType,
    pub metadata: MediaMetadata,
    /// Path of a generated thumbnail, when one exists.
    pub thumbnail_path: Option<String>,
    /// Import time, in milliseconds since the Unix epoch.
    pub imported_at: i64,
}

impl MediaItem {
    /// A fresh item for the file at `path`: its name is the path
    /// component after the last `/` (the whole path when there is no
    /// separator), or "Untitled" when that component is empty; its
    /// metadata is unprobed, its id fresh, its import time the clock's.
    pub fn new(path: String, media_type: MediaType) -> (r: Self)
        ensures
            r.path == path,
            r.media_type == media_type,
            r.metadata.spec_is_unprobed(),
            r.thumbnail_path is None,
            ({
                let tail = tail_component(path@);
                r.name@ == if tail.len() == 0 {
                    "Untitled"@
                } else {
                    tail
                }
            }),
    {
        let tail = base_name(path.as_str());
        let name = if tail.as_str().is_empty() {
            "Untitled".to_owned()
        } else {
            tail
        };
        MediaItem {
            id: MediaId::new(),
            name,
            path,
            media_type,
            metadata: MediaMetadata::default(),
            thumbnail_path: None,
            imported_at: now_timestamp_millis(),
        }
    }

    /// The probed duration in whole seconds, when one is known.
    pub fn duration_seconds(&self) -> (r: Option<u64>)
        ensures
            match self.metadata.duration {
                Some(d) => r == Some((d@ / (NANOS_PER_SEC as int)) as u64),
                None => r is None,
            },
    {
        match &self.metadata.duration {
            Some(d) => Some(d.as_secs()),
            None => None,
        }
    }
}

} // verus!
