//! Numeric codes that C callers pass for formats, sampler modes, render
//! settings and placement options, and the values they decode to.
//! Every decoder is total: codes outside the documented range fall back to
//! a fixed default.

use vstd::prelude::*;

verus! {

/// Texture formats a C caller can name.
#[derive(Debug, Clone, Copy, PartialEq, Eq, Structural)]
pub enum TextureFormatKind {
    Rgba8Unorm,
    Rgba8UnormSrgb,
    Bgra8Unorm,
    Bgra8UnormSrgb,
    R8Unorm,
    Rgba16Float,
}

/// 0 RGBA8, 1 RGBA8 sRGB, 2 BGRA8, 3 BGRA8 sRGB, 4 R8, 5 RGBA16 float;
/// anything else RGBA8 sRGB.
pub open spec fn spec_texture_format(code: u32) -> TextureFormatKind {
    match code {
        0 => TextureFormatKind::Rgba8Unorm,
        1 => TextureFormatKind::Rgba8UnormSrgb,
        2 => TextureFormatKind::Bgra8Unorm,
        3 => TextureFormatKind::Bgra8UnormSrgb,
        4 => TextureFormatKind::R8Unorm,
        5 => TextureFormatKind::Rgba16Float,
        _ => TextureFormatKind::Rgba8UnormSrgb,
    }
}

pub fn texture_format_from_code(code: u32) -> (f: TextureFormatKind)
    ensures
        f == spec_texture_format(code),
{
    match code {
        0 => TextureFormatKind::Rgba8Unorm,
        1 => TextureFormatKind::Rgba8UnormSrgb,
        2 => TextureFormatKind::Bgra8Unorm,
        3 => TextureFormatKind::Bgra8UnormSrgb,
        4 => TextureFormatKind::R8Unorm,
        5 => TextureFormatKind::Rgba16Float,
        _ => TextureFormatKind::Rgba8UnormSrgb,
    }
}

/// Texture addressing outside [0, 1].
#[derive(Debug, Clone, Copy, PartialEq, Eq, Structural)]
pub enum AddressMode {
    Repeat,
    MirrorRepeat,
    ClampToEdge,
    ClampToBorder,
}

/// 0 repeat, 1 mirrored repeat, 2 clamp to edge, 3 clamp to border;
/// anything else repeat.
pub open spec fn spec_address_mode(code: u32) -> AddressMode {
    match code {
        0 => AddressMode::Repeat,
        1 => AddressMode::MirrorRepeat,
        2 => AddressMode::ClampToEdge,
        3 => AddressMode::ClampToBorder,
        _ => AddressMode::Repeat,
    }
}

pub fn address_mode_from_code(code: u32) -> (m: AddressMode)
    ensures
        m == spec_address_mode(code),
{
    match code {
        0 => AddressMode::Repeat,
        1 => AddressMode::MirrorRepeat,
        2 => AddressMode::ClampToEdge,
        3 => AddressMode::ClampToBorder,
        _ => AddressMode::Repeat,
    }
}

/// Texel filtering for magnification and minification.
#[derive(Debug, Clone, Copy, PartialEq, Eq, Structural)]
pub enum FilterMode {
    Nearest,
    Linear,
}

/// 0 nearest; anything else linear.
pub open spec fn spec_filter_mode(code: u32) -> FilterMode {
    if code == 0 {
        FilterMode::Nearest
    } else {
        FilterMode::Linear
    }
}

pub fn filter_mode_from_code(code: u32) -> (m: FilterMode)
    ensures
        m == spec_filter_mode(code),
{
    if code == 0 {
        FilterMode::Nearest
    } else {
        FilterMode::Linear
    }
}

/// Filtering between mipmap levels.
#[derive(Debug, Clone, Copy, PartialEq, Eq, Structural)]
pub enum MipmapFilterMode {
    Nearest,
    Linear,
}

/// 0 nearest; anything else linear.
pub open spec fn spec_mipmap_filter_mode(code: u32) -> MipmapFilterMode {
    if code == 0 {
        MipmapFilterMode::Nearest
    } else {
        MipmapFilterMode::Linear
    }
}

pub fn mipmap_filter_mode_from_code(code: u32) -> (m: MipmapFilterMode)
    ensures
        m == spec_mipmap_filter_mode(code),
{
    if code == 0 {
        MipmapFilterMode::Nearest
    } else {
        MipmapFilterMode::Linear
    }
}

/// Shadow map quality tiers.
#[derive(Debug, Clone, Copy, PartialEq, Eq, Structural)]
pub enum ShadowQuality {
    Low,
    Medium,
    High,
    Ultra,
}

/// Decoding used when a renderer is created: 0 low, 1 medium, 2 high,
/// 3 ultra; anything else medium.
pub open spec fn spec_shadow_quality_at_creation(code: u32) -> ShadowQuality {
    match code {
        0 => ShadowQuality::Low,
        1 => ShadowQuality::Medium,
        2 => ShadowQuality::High,
        3 => ShadowQuality::Ultra,
        _ => ShadowQuality::Medium,
    }
}

pub fn shadow_quality_at_creation(code: u32) -> (q: ShadowQuality)
    ensures
        q == spec_shadow_quality_at_creation(code),
{
    match code {
        0 => ShadowQuality::Low,
        1 => ShadowQuality::Medium,
        2 => ShadowQuality::High,
        3 => ShadowQuality::Ultra,
        _ => ShadowQuality::Medium,
    }
}

/// Decoding used when a running renderer changes quality: 0 low, 1 medium,
/// 2 high; anything else ultra.
pub open spec fn spec_shadow_quality_at_runtime(code: u32) -> ShadowQuality {
    match code {
        0 => ShadowQuality::Low,
        1 => ShadowQuality::Medium,
        2 => ShadowQuality::High,
        _ => ShadowQuality::Ultra,
    }
}

pub fn shadow_quality_at_runtime(code: u32) -> (q: ShadowQuality)
    ensures
        q == spec_shadow_quality_at_runtime(code),
{
    match code {
        0 => ShadowQuality::Low,
        1 => ShadowQuality::Medium,
        2 => ShadowQuality::High,
        _ => ShadowQuality::Ultra,
    }
}

/// Performance overlay shown over the frame.
#[derive(Debug, Clone, Copy, PartialEq, Eq, Structural)]
pub enum PerfOverlayMode {
    Disabled,
    PassOverdraw,
    ShaderComplexity,
    TileLightCount,
    PassOutput,
}

/// 0 disabled, 1 pass overdraw, 2 shader complexity, 3 tile light count,
/// 4 pass output; anything else disabled.
pub open spec fn spec_perf_overlay_mode(code: u32) -> PerfOverlayMode {
    match code {
        0 => PerfOverlayMode::Disabled,
        1 => PerfOverlayMode::PassOverdraw,
        2 => PerfOverlayMode::ShaderComplexity,
        3 => PerfOverlayMode::TileLightCount,
        4 => PerfOverlayMode::PassOutput,
        _ => PerfOverlayMode::Disabled,
    }
}

pub fn perf_overlay_mode_from_code(code: u32) -> (m: PerfOverlayMode)
    ensures
        m == spec_perf_overlay_mode(code),
{
    match code {
        0 => PerfOverlayMode::Disabled,
        1 => PerfOverlayMode::PassOverdraw,
        2 => PerfOverlayMode::ShaderComplexity,
        3 => PerfOverlayMode::TileLightCount,
        4 => PerfOverlayMode::PassOutput,
        _ => PerfOverlayMode::Disabled,
    }
}

/// How a placed light or object may change after insertion.
#[derive(Debug, Clone, Copy, PartialEq, Eq, Structural)]
pub enum Movability {
    Stationary,
    Movable,
}

/// Movability of lights and objects: 0 unspecified (the engine decides),
/// 1 stationary, anything else movable.
pub open spec fn spec_movability(code: u32) -> Option<Movability> {
    match code {
        0 => None,
        1 => Some(Movability::Stationary),
        _ => Some(Movability::Movable),
    }
}

pub fn movability_from_code(code: u32) -> (m: Option<Movability>)
    ensures
        m == spec_movability(code),
{
    match code {
        0 => None,
        1 => Some(Movability::Stationary),
        _ => Some(Movability::Movable),
    }
}

/// Movability of voxel volumes and virtual objects: 2 movable, anything
/// else unspecified.
pub open spec fn spec_movable_only(code: u32) -> Option<Movability> {
    if code == 2 {
        Some(Movability::Movable)
    } else {
        None
    }
}

pub fn movable_only_from_code(code: u32) -> (m: Option<Movability>)
    ensures
        m == spec_movable_only(code),
{
    if code == 2 {
        Some(Movability::Movable)
    } else {
        None
    }
}

/// Shape of a reflection capture's influence region.
#[derive(Debug, Clone, Copy, PartialEq, Eq, Structural)]
pub enum ReflectionCaptureShape {
    Sphere,
    Box,
}

/// 0 sphere; anything else box.
pub open spec fn spec_reflection_shape(code: u32) -> ReflectionCaptureShape {
    if code == 0 {
        ReflectionCaptureShape::Sphere
    } else {
        ReflectionCaptureShape::Box
    }
}

pub fn reflection_shape_from_code(code: u32) -> (s: ReflectionCaptureShape)
    ensures
        s == spec_reflection_shape(code),
{
    if code == 0 {
        ReflectionCaptureShape::Sphere
    } else {
        ReflectionCaptureShape::Box
    }
}

/// Whether a reflection capture is captured once or kept up to date.
#[derive(Debug, Clone, Copy, PartialEq, Eq, Structural)]
pub enum ReflectionCaptureMobility {
    Static,
    Dynamic,
}

/// 0 static; anything else dynamic.
pub open spec fn spec_reflection_mobility(code: u32) -> ReflectionCaptureMobility {
    if code == 0 {
        ReflectionCaptureMobility::Static
    } else {
        ReflectionCaptureMobility::Dynamic
    }
}

pub fn reflection_mobility_from_code(code: u32) -> (m: ReflectionCaptureMobility)
    ensures
        m == spec_reflection_mobility(code),
{
    if code == 0 {
        ReflectionCaptureMobility::Static
    } else {
        ReflectionCaptureMobility::Dynamic
    }
}

/// Material feature flags passed with a class change: the flags when the
/// caller asked for them to be used, otherwise none.
pub fn feature_flags_option(use_flags: bool, flags: u32) -> (r: Option<u32>)
    ensures
        r == (if use_flags { Some(flags) } else { None::<u32> }),
{
    if use_flags {
        Some(flags)
    } else {
        None
    }
}

/// Both shadow-quality decoders read the codes 0 to 3 alike; they differ
/// only on larger codes (medium at creation, ultra at run time).
pub proof fn law_shadow_quality_decoders_agree(code: u32)
    ensures
        code <= 3 ==> spec_shadow_quality_at_creation(code) == spec_shadow_quality_at_runtime(code),
        code > 3 ==> spec_shadow_quality_at_creation(code) == ShadowQuality::Medium
            && spec_shadow_quality_at_runtime(code) == ShadowQuality::Ultra,
{
}

/// What each code means, for every code: the documented codes name their
/// values, and every other code falls back to the fixed default.
pub proof fn law_code_tables(code: u32)
    ensures
        code == 0 ==> spec_texture_format(code) == TextureFormatKind::Rgba8Unorm,
        code == 1 ==> spec_texture_format(code) == TextureFormatKind::Rgba8UnormSrgb,
        code == 2 ==> spec_texture_format(code) == TextureFormatKind::Bgra8Unorm,
        code == 3 ==> spec_texture_format(code) == TextureFormatKind::Bgra8UnormSrgb,
        code == 4 ==> spec_texture_format(code) == TextureFormatKind::R8Unorm,
        code == 5 ==> spec_texture_format(code) == TextureFormatKind::Rgba16Float,
        code > 5 ==> spec_texture_format(code) == TextureFormatKind::Rgba8UnormSrgb,
        code == 0 ==> spec_address_mode(code) == AddressMode::Repeat,
        code == 1 ==> spec_address_mode(code) == AddressMode::MirrorRepeat,
        code == 2 ==> spec_address_mode(code) == AddressMode::ClampToEdge,
        code == 3 ==> spec_address_mode(code) == AddressMode::ClampToBorder,
        code > 3 ==> spec_address_mode(code) == AddressMode::Repeat,
        (spec_filter_mode(code) == FilterMode::Nearest) <==> code == 0,
        (spec_filter_mode(code) == FilterMode::Linear) <==> code != 0,
        (spec_mipmap_filter_mode(code) == MipmapFilterMode::Nearest) <==> code == 0,
        (spec_mipmap_filter_mode(code) == MipmapFilterMode::Linear) <==> code != 0,
        code == 0 ==> spec_shadow_quality_at_creation(code) == ShadowQuality::Low,
        code == 1 ==> spec_shadow_quality_at_creation(code) == ShadowQuality::Medium,
        code == 2 ==> spec_shadow_quality_at_creation(code) == ShadowQuality::High,
        code == 3 ==> spec_shadow_quality_at_creation(code) == ShadowQuality::Ultra,
        code > 3 ==> spec_shadow_quality_at_creation(code) == ShadowQuality::Medium,
        code == 0 ==> spec_shadow_quality_at_runtime(code) == ShadowQuality::Low,
        code == 1 ==> spec_shadow_quality_at_runtime(code) == ShadowQuality::Medium,
        code == 2 ==> spec_shadow_quality_at_runtime(code) == ShadowQuality::High,
        code > 2 ==> spec_shadow_quality_at_runtime(code) == ShadowQuality::Ultra,
        code == 0 ==> spec_perf_overlay_mode(code) == PerfOverlayMode::Disabled,
        code == 1 ==> spec_perf_overlay_mode(code) == PerfOverlayMode::PassOverdraw,
        code == 2 ==> spec_perf_overlay_mode(code) == PerfOverlayMode::ShaderComplexity,
        code == 3 ==> spec_perf_overlay_mode(code) == PerfOverlayMode::TileLightCount,
        code == 4 ==> spec_perf_overlay_mode(code) == PerfOverlayMode::PassOutput,
        code > 4 ==> spec_perf_overlay_mode(code) == PerfOverlayMode::Disabled,
        (spec_movability(code) is None) <==> code == 0,
        (spec_movability(code) == Some(Movability::Stationary)) <==> code == 1,
        (spec_movability(code) == Some(Movability::Movable)) <==> code >= 2,
        (spec_movable_only(code) == Some(Movability::Movable)) <==> code == 2,
        (spec_movable_only(code) is None) <==> code != 2,
        (spec_reflection_shape(code) == ReflectionCaptureShape::Sphere) <==> code == 0,
        (spec_reflection_shape(code) == ReflectionCaptureShape::Box) <==> code != 0,
        (spec_reflection_mobility(code) == ReflectionCaptureMobility::Static) <==> code == 0,
        (spec_reflection_mobility(code) == ReflectionCaptureMobility::Dynamic) <==> code != 0,
{
}

/// Every texture format has a code in 0..=5 that names it.
pub proof fn law_texture_format_codes(f: TextureFormatKind)
    ensures
        exists|c: u32| c <= 5 && #[trigger] spec_texture_format(c) == f,
{
    match f {
        TextureFormatKind::Rgba8Unorm => assert(spec_texture_format(0) == f),
        TextureFormatKind::Rgba8UnormSrgb => assert(spec_texture_format(1) == f),
        TextureFormatKind::Bgra8Unorm => assert(spec_texture_format(2) == f),
        TextureFormatKind::Bgra8UnormSrgb => assert(spec_texture_format(3) == f),
        TextureFormatKind::R8Unorm => assert(spec_texture_format(4) == f),
        TextureFormatKind::Rgba16Float => assert(spec_texture_format(5) == f),
    }
}

} // verus!
