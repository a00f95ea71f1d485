use helio_ffi::codes::{PerfOverlayMode, ShadowQuality, TextureFormatKind};
use helio_ffi::renderer::{resolve_renderer_settings, RendererSettings};

#[test]
fn default_settings() {
    let s = RendererSettings::default();
    assert_eq!(s.width, 1920);
    assert_eq!(s.height, 1080);
    assert_eq!(s.surface_format, 0);
    assert_eq!(s.shadow_quality, 1);
    assert_eq!(s.debug_mode, 0);
    assert_eq!(s.perf_overlay_mode, 0);
    assert_eq!(s.shadow_atlas_size, 1024);
    assert_eq!(s.shadow_face_capacity, 32);
}

#[test]
fn default_settings_resolve_unchanged() {
    let r = resolve_renderer_settings(&RendererSettings::default(), 1);
    assert_eq!(r.width, 1920);
    assert_eq!(r.height, 1080);
    assert_eq!(r.surface_format, TextureFormatKind::Rgba8UnormSrgb);
    assert_eq!(r.shadow_quality, ShadowQuality::Medium);
    assert_eq!(r.debug_mode, 0);
    assert_eq!(r.perf_overlay_mode, PerfOverlayMode::Disabled);
    assert_eq!(r.shadow_atlas_size, 1024);
    assert_eq!(r.shadow_face_capacity, 32);
    assert!(r.enable_ssr);
    assert!(!r.enable_planar_reflections);
}

#[test]
fn zero_size_becomes_one_by_one() {
    let s = RendererSettings { width: 0, height: 0, ..RendererSettings::default() };
    let r = resolve_renderer_settings(&s, 0);
    assert_eq!((r.width, r.height), (1, 1));
}

#[test]
fn face_capacity_is_clamped() {
    let low = RendererSettings { shadow_face_capacity: 0, ..RendererSettings::default() };
    assert_eq!(resolve_renderer_settings(&low, 0).shadow_face_capacity, 1);
    let high = RendererSettings { shadow_face_capacity: 1000, ..RendererSettings::default() };
    assert_eq!(resolve_renderer_settings(&high, 0).shadow_face_capacity, 256);
    let edge = RendererSettings { shadow_face_capacity: 256, ..RendererSettings::default() };
    assert_eq!(resolve_renderer_settings(&edge, 0).shadow_face_capacity, 256);
}

#[test]
fn surface_format_comes_from_separate_code() {
    let s = RendererSettings { surface_format: 4, ..RendererSettings::default() };
    let r = resolve_renderer_settings(&s, 3);
    assert_eq!(r.surface_format, TextureFormatKind::Bgra8UnormSrgb);
}

#[test]
fn quality_and_overlay_are_decoded() {
    let s = RendererSettings {
        shadow_quality: 9,
        perf_overlay_mode: 4,
        debug_mode: 7,
        ..RendererSettings::default()
    };
    let r = resolve_renderer_settings(&s, 0);
    assert_eq!(r.shadow_quality, ShadowQuality::Medium);
    assert_eq!(r.perf_overlay_mode, PerfOverlayMode::PassOutput);
    assert_eq!(r.debug_mode, 7);
}
