//! Opacity effect.

use vstd::prelude::*;

verus! {

/// Opacity of a clip in thousandths: 0 is transparent, 1000 is opaque.
#[derive(Debug, Clone, Copy, PartialEq, Eq, Structural)]
pub struct OpacityEffect {
    pub opacity: u32,
}

impl Default for OpacityEffect {
    /// Fully opaque.
    fn default() -> (r: Self)
        ensures
            r.opacity == 1000,
    {
        OpacityEffect { opacity: 1000 }
    }
}

} // verus!
