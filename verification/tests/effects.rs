//! Tests for effect descriptions and project settings.

use vxutil_core::effects::{
    BlurEffect, ColorCorrectEffect, EffectType, OpacityEffect, TransformEffect,
};
use vxutil_core::project::{Project, ProjectSettings};
use vxutil_core::types::{FrameRate, Resolution};

#[test]
fn test_transform_default() {
    // Parameters are stored in thousandths of a unit, so the identity
    // scale is 1000 and the identity rotation 0.
    let effect = TransformEffect::default();
    assert_eq!(effect.scale_x, 1000);
    assert_eq!(effect.scale_y, 1000);
    assert_eq!(effect.rotation, 0);
}

#[test]
fn test_effect_defaults() {
    assert_eq!(BlurEffect::default().radius, 5000);
    assert_eq!(OpacityEffect::default().opacity, 1000);
    let color = ColorCorrectEffect::default();
    assert_eq!(color.brightness, 0);
    assert_eq!(color.saturation, 1000);
}

#[test]
fn test_effect_names() {
    assert_eq!(EffectType::Transform(TransformEffect::default()).name(), "Transform");
    assert_eq!(EffectType::Opacity(OpacityEffect::default()).name(), "Opacity");
    assert_eq!(
        EffectType::ColorCorrect(ColorCorrectEffect::default()).name(),
        "Color Correction"
    );
    assert_eq!(EffectType::Blur(BlurEffect::default()).name(), "Blur");
}

#[test]
fn test_project_settings_default() {
    let settings = ProjectSettings::default();
    assert_eq!(settings.frame_rate, FrameRate::fps_30());
    assert_eq!(settings.resolution, Resolution::full_hd());
    assert_eq!(settings.sample_rate, 48000);
}

#[test]
fn test_project_new() {
    let project = Project::new(
        "demo".to_string(),
        "projects/demo.vx".to_string(),
        ProjectSettings::default(),
    );
    assert_eq!(project.name, "demo");
    assert_eq!(project.path, "projects/demo.vx");
    assert_eq!(project.settings.sample_rate, 48000);
}
