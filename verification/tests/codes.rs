use helio_ffi::codes::{
    address_mode_from_code, feature_flags_option, filter_mode_from_code,
    mipmap_filter_mode_from_code, movability_from_code, movable_only_from_code,
    perf_overlay_mode_from_code, reflection_mobility_from_code, reflection_shape_from_code,
    shadow_quality_at_creation, shadow_quality_at_runtime, texture_format_from_code, AddressMode,
    FilterMode, MipmapFilterMode, Movability, PerfOverlayMode, ReflectionCaptureMobility,
    ReflectionCaptureShape, ShadowQuality, TextureFormatKind,
};

#[test]
fn texture_format_codes() {
    assert_eq!(texture_format_from_code(0), TextureFormatKind::Rgba8Unorm);
    assert_eq!(texture_format_from_code(1), TextureFormatKind::Rgba8UnormSrgb);
    assert_eq!(texture_format_from_code(2), TextureFormatKind::Bgra8Unorm);
    assert_eq!(texture_format_from_code(3), TextureFormatKind::Bgra8UnormSrgb);
    assert_eq!(texture_format_from_code(4), TextureFormatKind::R8Unorm);
    assert_eq!(texture_format_from_code(5), TextureFormatKind::Rgba16Float);
    assert_eq!(texture_format_from_code(6), TextureFormatKind::Rgba8UnormSrgb);
    assert_eq!(texture_format_from_code(u32::MAX), TextureFormatKind::Rgba8UnormSrgb);
}

#[test]
fn address_mode_codes() {
    assert_eq!(address_mode_from_code(0), AddressMode::Repeat);
    assert_eq!(address_mode_from_code(1), AddressMode::MirrorRepeat);
    assert_eq!(address_mode_from_code(2), AddressMode::ClampToEdge);
    assert_eq!(address_mode_from_code(3), AddressMode::ClampToBorder);
    assert_eq!(address_mode_from_code(4), AddressMode::Repeat);
}

#[test]
fn filter_mode_codes() {
    assert_eq!(filter_mode_from_code(0), FilterMode::Nearest);
    assert_eq!(filter_mode_from_code(1), FilterMode::Linear);
    assert_eq!(filter_mode_from_code(77), FilterMode::Linear);
    assert_eq!(mipmap_filter_mode_from_code(0), MipmapFilterMode::Nearest);
    assert_eq!(mipmap_filter_mode_from_code(1), MipmapFilterMode::Linear);
    assert_eq!(mipmap_filter_mode_from_code(2), MipmapFilterMode::Linear);
}

#[test]
fn shadow_quality_codes_at_creation() {
    assert_eq!(shadow_quality_at_creation(0), ShadowQuality::Low);
    assert_eq!(shadow_quality_at_creation(1), ShadowQuality::Medium);
    assert_eq!(shadow_quality_at_creation(2), ShadowQuality::High);
    assert_eq!(shadow_quality_at_creation(3), ShadowQuality::Ultra);
    assert_eq!(shadow_quality_at_creation(4), ShadowQuality::Medium);
}

#[test]
fn shadow_quality_codes_at_runtime() {
    assert_eq!(shadow_quality_at_runtime(0), ShadowQuality::Low);
    assert_eq!(shadow_quality_at_runtime(1), ShadowQuality::Medium);
    assert_eq!(shadow_quality_at_runtime(2), ShadowQuality::High);
    assert_eq!(shadow_quality_at_runtime(3), ShadowQuality::Ultra);
    assert_eq!(shadow_quality_at_runtime(4), ShadowQuality::Ultra);
}

#[test]
fn shadow_quality_decoders_agree_below_four() {
    for c in 0..4u32 {
        assert_eq!(shadow_quality_at_creation(c), shadow_quality_at_runtime(c));
    }
    for c in [4u32, 10, u32::MAX] {
        assert_eq!(shadow_quality_at_creation(c), ShadowQuality::Medium);
        assert_eq!(shadow_quality_at_runtime(c), ShadowQuality::Ultra);
    }
}

#[test]
fn perf_overlay_codes() {
    assert_eq!(perf_overlay_mode_from_code(0), PerfOverlayMode::Disabled);
    assert_eq!(perf_overlay_mode_from_code(1), PerfOverlayMode::PassOverdraw);
    assert_eq!(perf_overlay_mode_from_code(2), PerfOverlayMode::ShaderComplexity);
    assert_eq!(perf_overlay_mode_from_code(3), PerfOverlayMode::TileLightCount);
    assert_eq!(perf_overlay_mode_from_code(4), PerfOverlayMode::PassOutput);
    assert_eq!(perf_overlay_mode_from_code(5), PerfOverlayMode::Disabled);
}

#[test]
fn movability_codes() {
    assert_eq!(movability_from_code(0), None);
    assert_eq!(movability_from_code(1), Some(Movability::Stationary));
    assert_eq!(movability_from_code(2), Some(Movability::Movable));
    assert_eq!(movability_from_code(9), Some(Movability::Movable));
}

#[test]
fn movable_only_codes() {
    assert_eq!(movable_only_from_code(0), None);
    assert_eq!(movable_only_from_code(1), None);
    assert_eq!(movable_only_from_code(2), Some(Movability::Movable));
    assert_eq!(movable_only_from_code(3), None);
}

#[test]
fn reflection_capture_codes() {
    assert_eq!(reflection_shape_from_code(0), ReflectionCaptureShape::Sphere);
    assert_eq!(reflection_shape_from_code(1), ReflectionCaptureShape::Box);
    assert_eq!(reflection_shape_from_code(5), ReflectionCaptureShape::Box);
    assert_eq!(reflection_mobility_from_code(0), ReflectionCaptureMobility::Static);
    assert_eq!(reflection_mobility_from_code(1), ReflectionCaptureMobility::Dynamic);
    assert_eq!(reflection_mobility_from_code(2), ReflectionCaptureMobility::Dynamic);
}

#[test]
fn feature_flags_only_when_used() {
    assert_eq!(feature_flags_option(true, 0x15), Some(0x15));
    assert_eq!(feature_flags_option(false, 0x15), None);
    assert_eq!(feature_flags_option(true, 0), Some(0));
}
