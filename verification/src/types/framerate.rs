//! Frame rate as an exact rational number of frames per second.

use vstd::prelude::*;

verus! {

/// Frames per second as the fraction `numerator / denominator`,
/// never reduced to lowest terms.
#[derive(Debug, Clone, Copy, PartialEq, Eq, Structural)]
pub struct FrameRate {
    pub numerator: u32,
    pub denominator: u32,
}

impl FrameRate {
    pub fn new(numerator: u32, denominator: u32) -> (r: Self)
        ensures
            r.numerator == numerator,
            r.denominator == denominator,
    {
        FrameRate { numerator, denominator }
    }

    /// 24 frames per second.
    pub fn fps_24() -> (r: Self)
        ensures
            r.numerator == 24,
            r.denominator == 1,
    {
        FrameRate { numerator: 24, denominator: 1 }
    }

    /// 25 frames per second.
    pub fn fps_25() -> (r: Self)
        ensures
            r.numerator == 25,
            r.denominator == 1,
    {
        FrameRate { numerator: 25, denominator: 1 }
    }

    /// 30 frames per second.
    pub fn fps_30() -> (r: Self)
        ensures
            r.numerator == 30,
            r.denominator == 1,
    {
        FrameRate { numerator: 30, denominator: 1 }
    }

    /// 60 frames per second.
    pub fn fps_60() -> (r: Self)
        ensures
            r.numerator == 60,
            r.denominator == 1,
    {
        FrameRate { numerator: 60, denominator: 1 }
    }

    /// 23.976 frames per second, kept exact as 24000/1001.
    pub fn fps_23_976() -> (r: Self)
        ensures
            r.numerator == 24000,
            r.denominator == 1001,
    {
        FrameRate { numerator: 24000, denominator: 1001 }
    }

    /// 29.97 frames per second, kept exact as 30000/1001.
    pub fn fps_29_97() -> (r: Self)
        ensures
            r.numerator == 30000,
            r.denominator == 1001,
    {
        FrameRate { numerator: 30000, denominator: 1001 }
    }
}

} // verus!
