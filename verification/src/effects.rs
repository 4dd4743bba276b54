//! Effects that can be attached to a clip. These are descriptions only:
//! applying them to pixels is a collaborator's concern.

use vstd::prelude::*;

mod blur;
mod color;
mod opacity;
mod transform;

pub use blur::BlurEffect;
pub use color::ColorCorrectEffect;
pub use opacity::OpacityEffect;
pub use transform::TransformEffect;

verus! {

/// One effect attached to a clip, with its parameters.
#[derive(Debug, Clone, Copy, PartialEq, Eq, Structural)]
pub enum EffectType {
    Transform(TransformEffect),
    Opacity(OpacityEffect),
    ColorCorrect(ColorCorrectEffect),
    Blur(BlurEffect),
}

impl EffectType {
    /// The display name of each effect kind.
    pub open spec fn spec_name(&self) -> Seq<char> {
        match self {
            EffectType::Transform(_) => "Transform"@,
            EffectType::Opacity(_) => "Opacity"@,
            EffectType::ColorCorrect(_) => "Color Correction"@,
            EffectType::Blur(_) => "Blur"@,
        }
    }

    pub fn name(&self) -> (r: &str)
        ensures
            r@ == self.spec_name(),
    {
        match self {
            EffectType::Transform(_) => "Transform",
            EffectType::Opacity(_) => "Opacity",
            EffectType::ColorCorrect(_) => "Color Correction",
            EffectType::Blur(_) => "Blur",
        }
    }
}

} // verus!
