//! Pixel dimensions of a video frame.

use vstd::prelude::*;

verus! {

/// Width and height in pixels.
#[derive(Debug, Clone, Copy, PartialEq, Eq, Structural)]
pub struct Resolution {
    pub width: u32,
    pub height: u32,
}

impl Resolution {
    pub fn new(width: u32, height: u32) -> (r: Self)
        ensures
            r.width == width,
            r.height == height,
    {
        Resolution { width, height }
    }

    /// 1280 x 720.
    pub fn hd() -> (r: Self)
        ensures
            r.width == 1280,
            r.height == 720,
    {
        Resolution { width: 1280, height: 720 }
    }

    /// 1920 x 1080.
    pub fn full_hd() -> (r: Self)
        ensures
            r.width == 1920,
            r.height == 1080,
    {
        Resolution { width: 1920, height: 1080 }
    }

    /// 3840 x 2160.
    pub fn uhd_4k() -> (r: Self)
        ensures
            r.width == 3840,
            r.height == 2160,
    {
        Resolution { width: 3840, height: 2160 }
    }
}

} // verus!
