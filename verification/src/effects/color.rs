//! Color correction effect.

use vstd::prelude::*;

verus! {

/// Color correction parameters, each in thousandths of a unit:
/// `brightness` and `contrast` range over -1000..=1000, `saturation`
/// over 0..=2000, `hue` over -180000..=180000 (thousandths of a degree).
#[derive(Debug, Clone, Copy, PartialEq, Eq, Structural)]
pub struct ColorCorrectEffect {
    pub brightness: i32,
    pub contrast: i32,
    pub saturation: i32,
    pub hue: i32,
}

impl Default for ColorCorrectEffect {
    /// The identity correction: nothing changed, full saturation.
    fn default() -> (r: Self)
        ensures
            r.brightness == 0,
            r.contrast == 0,
            r.saturation == 1000,
            r.hue == 0,
    {
        ColorCorrectEffect { brightness: 0, contrast: 0, saturation: 1000, hue: 0 }
    }
}

} // verus!
