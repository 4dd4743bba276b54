//! The media library: imported source items, keyed by opaque id.

mod item;
mod library;
mod metadata;
mod types;

pub use item::MediaItem;
pub use library::{
    find_item_index, ids_unique, items_matching, items_of_type, lemma_find_item_index,
    missing_ids, MediaLibrary,
};
pub use metadata::MediaMetadata;
pub use types::{MediaId, MediaType};
