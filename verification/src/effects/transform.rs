//! Transform effect: position, scale and rotation.

use vstd::prelude::*;

verus! {

/// Geometric placement of a clip. Positions are in thousandths of a
/// pixel, scales in thousandths (1000 is unscaled), rotation in
/// thousandths of a degree.
#[derive(Debug, Clone, Copy, PartialEq, Eq, Structural)]
pub struct TransformEffect {
    pub position_x: i32,
    pub position_y: i32,
    pub scale_x: i32,
    pub scale_y: i32,
    pub rotation: i32,
}

impl Default for TransformEffect {
    /// The identity transform: origin position, unit scale, no rotation.
    fn default() -> (r: Self)
        ensures
            r.position_x == 0,
            r.position_y == 0,
            r.scale_x == 1000,
            r.scale_y == 1000,
            r.rotation == 0,
    {
        TransformEffect { position_x: 0, position_y: 0, scale_x: 1000, scale_y: 1000, rotation: 0 }
    }
}

} // verus!
