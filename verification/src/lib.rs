//! Core model of a non-linear editing timeline: temporal value types,
//! clips, tracks and sequences, a media library, effect descriptions and
//! project settings. Every operation carries a contract that pins down
//! what it returns or how it changes its receiver.

pub mod effects;
pub mod error;
pub mod media;
pub mod project;
pub mod seq_util;
pub mod text;
pub mod timeline;
pub mod trusted;
pub mod types;

pub use error::VxError;
pub use project::{Project, ProjectSettings};
pub use types::{Duration, FrameNumber, FrameRate, Resolution, TimeRange, Timecode};
