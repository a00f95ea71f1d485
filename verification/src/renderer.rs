//! Renderer settings: the integer part of the C renderer configuration,
//! its defaults, and the settings a renderer is actually created with.

use vstd::prelude::*;
use crate::codes::{
    PerfOverlayMode, ShadowQuality, TextureFormatKind, perf_overlay_mode_from_code,
    shadow_quality_at_creation, spec_perf_overlay_mode, spec_shadow_quality_at_creation,
    spec_texture_format, texture_format_from_code,
};

verus! {

/// Integer settings of a renderer configuration as a C caller fills them.
#[derive(Debug, Clone, Copy, PartialEq, Eq, Structural)]
pub struct RendererSettings {
    pub width: u32,
    pub height: u32,
    pub surface_format: u32,
    pub shadow_quality: u32,
    pub debug_mode: u32,
    pub perf_overlay_mode: u32,
    pub shadow_atlas_size: u32,
    pub shadow_face_capacity: u32,
}

impl RendererSettings {
    /// 1920x1080, surface format code 0, medium shadows (1), no debug view,
    /// no overlay, a 1024 shadow atlas with room for 32 faces.
    pub open spec fn spec_default() -> RendererSettings {
        RendererSettings {
            width: 1920,
            height: 1080,
            surface_format: 0,
            shadow_quality: 1,
            debug_mode: 0,
            perf_overlay_mode: 0,
            shadow_atlas_size: 1024,
            shadow_face_capacity: 32,
        }
    }
}

impl Default for RendererSettings {
    fn default() -> (s: RendererSettings)
        ensures
            s == RendererSettings::spec_default(),
    {
        RendererSettings {
            width: 1920,
            height: 1080,
            surface_format: 0,
            shadow_quality: 1,
            debug_mode: 0,
            perf_overlay_mode: 0,
            shadow_atlas_size: 1024,
            shadow_face_capacity: 32,
        }
    }
}

/// The settings a renderer is created with.
#[derive(Debug, Clone, Copy, PartialEq, Eq, Structural)]
pub struct ResolvedRendererSettings {
    pub width: u32,
    pub height: u32,
    pub surface_format: TextureFormatKind,
    pub shadow_quality: ShadowQuality,
    pub debug_mode: u32,
    pub perf_overlay_mode: PerfOverlayMode,
    pub shadow_atlas_size: u32,
    pub shadow_face_capacity: u32,
    pub enable_ssr: bool,
    pub enable_planar_reflections: bool,
}

pub open spec fn at_least_one(x: u32) -> u32 {
    if x < 1 {
        1
    } else {
        x
    }
}

pub open spec fn clamp_face_capacity(x: u32) -> u32 {
    if x < 1 {
        1
    } else if x > 256 {
        256
    } else {
        x
    }
}

/// Renderer creation reads `settings` this way: the output is at least
/// 1x1, the surface format comes from the separate `surface_format` code
/// (the one inside `settings` is not read), quality and overlay are
/// decoded, the face capacity is kept within 1..=256, screen-space
/// reflections are on and planar reflections off.
pub open spec fn spec_resolve(settings: RendererSettings, surface_format: u32) -> ResolvedRendererSettings {
    ResolvedRendererSettings {
        width: at_least_one(settings.width),
        height: at_least_one(settings.height),
        surface_format: spec_texture_format(surface_format),
        shadow_quality: spec_shadow_quality_at_creation(settings.shadow_quality),
        debug_mode: settings.debug_mode,
        perf_overlay_mode: spec_perf_overlay_mode(settings.perf_overlay_mode),
        shadow_atlas_size: settings.shadow_atlas_size,
        shadow_face_capacity: clamp_face_capacity(settings.shadow_face_capacity),
        enable_ssr: true,
        enable_planar_reflections: false,
    }
}

pub fn resolve_renderer_settings(settings: &RendererSettings, surface_format: u32) -> (r: ResolvedRendererSettings)
    ensures
        r == spec_resolve(*settings, surface_format),
        r.width == (if settings.width == 0 { 1 } else { settings.width }),
        r.height == (if settings.height == 0 { 1 } else { settings.height }),
        r.debug_mode == settings.debug_mode,
        r.shadow_atlas_size == settings.shadow_atlas_size,
        r.shadow_face_capacity == (if settings.shadow_face_capacity == 0 {
            1
        } else if settings.shadow_face_capacity > 256 {
            256
        } else {
            settings.shadow_face_capacity
        }),
        r.surface_format == spec_texture_format(surface_format),
        r.shadow_quality == spec_shadow_quality_at_creation(settings.shadow_quality),
        r.perf_overlay_mode == spec_perf_overlay_mode(settings.perf_overlay_mode),
        r.enable_ssr,
        !r.enable_planar_reflections,
{
    let width = if settings.width < 1 { 1 } else { settings.width };
    let height = if settings.height < 1 { 1 } else { settings.height };
    let cap = settings.shadow_face_capacity;
    let shadow_face_capacity = if cap < 1 {
        1
    } else if cap > 256 {
        256
    } else {
        cap
    };
    ResolvedRendererSettings {
        width,
        height,
        surface_format: texture_format_from_code(surface_format),
        shadow_quality: shadow_quality_at_creation(settings.shadow_quality),
        debug_mode: settings.debug_mode,
        perf_overlay_mode: perf_overlay_mode_from_code(settings.perf_overlay_mode),
        shadow_atlas_size: settings.shadow_atlas_size,
        shadow_face_capacity,
        enable_ssr: true,
        enable_planar_reflections: false,
    }
}

/// A renderer is never created with an empty output or with a face
/// capacity outside 1..=256, whatever the caller passes.
pub proof fn law_resolved_settings_bounds(settings: RendererSettings, surface_format: u32)
    ensures
        spec_resolve(settings, surface_format).width >= 1,
        spec_resolve(settings, surface_format).height >= 1,
        1 <= spec_resolve(settings, surface_format).shadow_face_capacity <= 256,
{
}

/// The debug mode and the shadow atlas size reach the renderer exactly as the
/// caller gave them; the size and face capacity change only when out of
/// range, and then only to the nearest bound.
pub proof fn law_resolve_passes_through(settings: RendererSettings, surface_format: u32)
    ensures
        spec_resolve(settings, surface_format).debug_mode == settings.debug_mode,
        spec_resolve(settings, surface_format).shadow_atlas_size == settings.shadow_atlas_size,
        settings.width == 0 ==> spec_resolve(settings, surface_format).width == 1,
        settings.height == 0 ==> spec_resolve(settings, surface_format).height == 1,
        settings.shadow_face_capacity == 0 ==> spec_resolve(settings, surface_format).shadow_face_capacity == 1,
        settings.shadow_face_capacity > 256 ==> spec_resolve(settings, surface_format).shadow_face_capacity
            == 256,
        spec_resolve(settings, surface_format).enable_ssr,
        !spec_resolve(settings, surface_format).enable_planar_reflections,
{
}

/// Settings that are already in range pass through unchanged.
pub proof fn law_resolve_keeps_valid_settings(settings: RendererSettings, surface_format: u32)
    requires
        settings.width >= 1,
        settings.height >= 1,
        1 <= settings.shadow_face_capacity <= 256,
    ensures
        spec_resolve(settings, surface_format).width == settings.width,
        spec_resolve(settings, surface_format).height == settings.height,
        spec_resolve(settings, surface_format).shadow_face_capacity == settings.shadow_face_capacity,
{
}

/// The default settings are kept as they are, and the default quality code
/// means medium shadows.
pub proof fn law_default_settings_resolve(surface_format: u32)
    ensures
        spec_resolve(RendererSettings::spec_default(), surface_format).width == 1920,
        spec_resolve(RendererSettings::spec_default(), surface_format).height == 1080,
        spec_resolve(RendererSettings::spec_default(), surface_format).shadow_quality
            == ShadowQuality::Medium,
        spec_resolve(RendererSettings::spec_default(), surface_format).perf_overlay_mode
            == PerfOverlayMode::Disabled,
        spec_resolve(RendererSettings::spec_default(), surface_format).shadow_face_capacity == 32,
{
}

} // verus!
