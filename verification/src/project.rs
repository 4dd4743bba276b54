//! Projects: a name, a location on disk, and settings.

use vstd::prelude::*;

use crate::types::{FrameRate, Resolution};

verus! {

/// Settings every new sequence in a project starts from.
#[derive(Debug, Clone)]
pub struct ProjectSettings {
    pub frame_rate: FrameRate,
    pub resolution: Resolution,
    /// Audio sample rate in hertz.
    pub sample_rate: u32,
}

impl Default for ProjectSettings {
    /// 30 frames per second, full HD, 48 kHz audio.
    fn default() -> (r: Self)
        ensures
            r.frame_rate.numerator == 30,
            r.frame_rate.denominator == 1,
            r.resolution.width == 1920,
            r.resolution.height == 1080,
            r.sample_rate == 48000,
    {
        ProjectSettings {
            frame_rate: FrameRate::fps_30(),
            resolution: Resolution::full_hd(),
            sample_rate: 48000,
        }
    }
}

/// A project: its name, where it lives on disk, and its settings.
/// Reading and writing the project file is a persistence layer's
/// concern, outside this model.
#[derive(Debug, Clone)]
pub struct Project {
    pub name: String,
    /// Path of the project on disk, with `/` as the separator.
    pub path: String,
    pub settings: ProjectSettings,
}

impl Project {
    pub fn new(name: String, path: String, settings: ProjectSettings) -> (r: Self)
        ensures
            r.name == name,
            r.path == path,
            r.settings == settings,
    {
        Project { name, path, settings }
    }
}

} // verus!
