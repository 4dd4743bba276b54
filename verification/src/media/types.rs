//! Media identifiers and media kinds.

use vstd::prelude::*;

use crate::trusted::fresh_uuid_bits;

verus! {

/// Opaque unique identifier for a source media item. Fresh values come
/// from a process-wide random source; the model promises nothing of
/// their bits, only that the library never changes an id once made.
#[derive(Debug, Clone, Copy, PartialEq, Eq, Hash, Structural)]
pub struct MediaId(u128);

impl MediaId {
    /// A fresh random identifier.
    pub fn new() -> Self {
        MediaId(fresh_uuid_bits())
    }
}

impl Default for MediaId {
    fn default() -> Self {
        MediaId::new()
    }
}

/// The kind of a source media item.
#[derive(Debug, Clone, Copy, PartialEq, Eq, Structural)]
pub enum MediaType {
    Video,
    Audio,
    Image,
}

} // verus!
