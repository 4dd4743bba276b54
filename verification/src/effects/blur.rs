//! Blur effect.

use vstd::prelude::*;

verus! {

/// A blur applied to a clip. `radius` is the blur radius in thousandths
/// of a pixel, so normal pixel values stay exact integers.
#[derive(Debug, Clone, Copy, PartialEq, Eq, Structural)]
pub struct BlurEffect {
    pub radius: u32,
}

impl Default for BlurEffect {
    /// A five-pixel blur.
    fn default() -> (r: Self)
        ensures
            r.radius == 5000,
    {
        BlurEffect { radius: 5000 }
    }
}

} // verus!
