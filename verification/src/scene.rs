//! What the scene entry points hand to the engine, built from the values a
//! C caller passes: texture uploads with their samplers, object and virtual
//! object placements, and the handles returned for new resources.

use vstd::prelude::*;
use crate::types::HelioHandle;
use crate::actor::{ResourceId, resource_id_of, handle_of};
use crate::codes::{
    AddressMode, FilterMode, MipmapFilterMode, Movability, TextureFormatKind,
    address_mode_from_code, filter_mode_from_code, mipmap_filter_mode_from_code,
    movability_from_code, movable_only_from_code, spec_address_mode, spec_filter_mode,
    spec_mipmap_filter_mode, spec_movability, spec_movable_only, spec_texture_format,
    texture_format_from_code,
};

verus! {

/// Sampler settings as C codes.
#[derive(Debug, Clone, Copy, PartialEq, Eq, Structural)]
pub struct SamplerCodes {
    pub address_mode_u: u32,
    pub address_mode_v: u32,
    pub address_mode_w: u32,
    pub mag_filter: u32,
    pub min_filter: u32,
    pub mipmap_filter: u32,
}

/// Decoded sampler settings.
#[derive(Debug, Clone, Copy, PartialEq, Eq, Structural)]
pub struct SamplerDesc {
    pub address_mode_u: AddressMode,
    pub address_mode_v: AddressMode,
    pub address_mode_w: AddressMode,
    pub mag_filter: FilterMode,
    pub min_filter: FilterMode,
    pub mipmap_filter: MipmapFilterMode,
}

pub open spec fn spec_sampler(c: SamplerCodes) -> SamplerDesc {
    SamplerDesc {
        address_mode_u: spec_address_mode(c.address_mode_u),
        address_mode_v: spec_address_mode(c.address_mode_v),
        address_mode_w: spec_address_mode(c.address_mode_w),
        mag_filter: spec_filter_mode(c.mag_filter),
        min_filter: spec_filter_mode(c.min_filter),
        mipmap_filter: spec_mipmap_filter_mode(c.mipmap_filter),
    }
}

/// Each sampler setting is decoded from its own code: the U, V, W address
/// modes from the U, V, W codes, the magnification and minification filters
/// from theirs, the mipmap filter from its code.
pub proof fn law_sampler_fields(c: SamplerCodes)
    ensures
        spec_sampler(c).address_mode_u == spec_address_mode(c.address_mode_u),
        spec_sampler(c).address_mode_v == spec_address_mode(c.address_mode_v),
        spec_sampler(c).address_mode_w == spec_address_mode(c.address_mode_w),
        spec_sampler(c).mag_filter == spec_filter_mode(c.mag_filter),
        spec_sampler(c).min_filter == spec_filter_mode(c.min_filter),
        spec_sampler(c).mipmap_filter == spec_mipmap_filter_mode(c.mipmap_filter),
{
}

/// Decodes each sampler code on its own.
pub fn sampler_from_codes(c: &SamplerCodes) -> (s: SamplerDesc)
    ensures
        s == spec_sampler(*c),
        s.address_mode_u == spec_address_mode(c.address_mode_u),
        s.address_mode_v == spec_address_mode(c.address_mode_v),
        s.address_mode_w == spec_address_mode(c.address_mode_w),
        s.mag_filter == spec_filter_mode(c.mag_filter),
        s.min_filter == spec_filter_mode(c.min_filter),
        s.mipmap_filter == spec_mipmap_filter_mode(c.mipmap_filter),
{
    SamplerDesc {
        address_mode_u: address_mode_from_code(c.address_mode_u),
        address_mode_v: address_mode_from_code(c.address_mode_v),
        address_mode_w: address_mode_from_code(c.address_mode_w),
        mag_filter: filter_mode_from_code(c.mag_filter),
        min_filter: filter_mode_from_code(c.min_filter),
        mipmap_filter: mipmap_filter_mode_from_code(c.mipmap_filter),
    }
}

/// A texture to upload: optional label, size, format, texel bytes, sampler.
#[derive(Debug, PartialEq, Eq)]
pub struct TextureUploadSpec {
    pub label: Option<String>,
    pub width: u32,
    pub height: u32,
    pub format: TextureFormatKind,
    pub data: Vec<u8>,
    pub sampler: SamplerDesc,
}

/// The upload for a texture with these C-side values: label, size and
/// bytes kept as given, the format code and sampler codes decoded.
pub fn texture_upload(
    label: Option<String>,
    width: u32,
    height: u32,
    format: u32,
    data: Vec<u8>,
    sampler: &SamplerCodes,
) -> (t: TextureUploadSpec)
    ensures
        t.label == label,
        t.width == width,
        t.height == height,
        t.format == spec_texture_format(format),
        t.data@ == data@,
        t.sampler == spec_sampler(*sampler),
{
    TextureUploadSpec {
        label,
        width,
        height,
        format: texture_format_from_code(format),
        data,
        sampler: sampler_from_codes(sampler),
    }
}

/// The non-geometric part of an object placement.
#[derive(Debug, Clone, Copy, PartialEq, Eq, Structural)]
pub struct ObjectPlacement {
    pub mesh: ResourceId,
    pub material: ResourceId,
    pub flags: u32,
    pub groups: u64,
    pub movability: Option<Movability>,
    pub user_tag: u64,
}

/// Places `mesh` with `material`: the handles become engine ids, flags,
/// group mask and tag are kept, the movability code is decoded
/// (0 unspecified, 1 stationary, otherwise movable).
pub fn object_placement(
    mesh: HelioHandle,
    material: HelioHandle,
    flags: u32,
    groups: u64,
    movability: u32,
    user_tag: u64,
) -> (p: ObjectPlacement)
    ensures
        p == (ObjectPlacement {
            mesh: resource_id_of(mesh),
            material: resource_id_of(material),
            flags,
            groups,
            movability: spec_movability(movability),
            user_tag,
        }),
        p.mesh.slot == mesh.slot && p.mesh.generation == mesh.generation,
        p.material.slot == material.slot && p.material.generation == material.generation,
{
    ObjectPlacement {
        mesh: ResourceId::from(mesh),
        material: ResourceId::from(material),
        flags,
        groups,
        movability: movability_from_code(movability),
        user_tag,
    }
}

/// The non-geometric part of a virtual object placement.
#[derive(Debug, Clone, Copy, PartialEq, Eq, Structural)]
pub struct VirtualObjectPlacement {
    pub virtual_mesh: u32,
    pub material_id: u32,
    pub flags: u32,
    pub groups: u64,
    pub movability: Option<Movability>,
}

/// Places a virtual mesh: only the slot of its handle names it (the
/// generation is not read), material, flags and group mask are kept, and
/// only code 2 makes the object movable.
pub fn virtual_object_placement(
    virtual_mesh: HelioHandle,
    material_id: u32,
    flags: u32,
    groups: u64,
    movability: u32,
) -> (p: VirtualObjectPlacement)
    ensures
        p == (VirtualObjectPlacement {
            virtual_mesh: virtual_mesh.slot,
            material_id,
            flags,
            groups,
            movability: spec_movable_only(movability),
        }),
{
    VirtualObjectPlacement {
        virtual_mesh: virtual_mesh.slot,
        material_id,
        flags,
        groups,
        movability: movable_only_from_code(movability),
    }
}

/// The handle returned for a new virtual mesh: its slot, generation 0.
pub fn virtual_mesh_handle(id: u32) -> (h: HelioHandle)
    ensures
        h == (HelioHandle { slot: id, generation: 0 }),
{
    HelioHandle { slot: id, generation: 0 }
}

/// The handle returned for an insertion that may fail: the new id's handle,
/// or the null handle on failure.
pub fn handle_or_null<E>(outcome: Result<ResourceId, E>) -> (h: HelioHandle)
    ensures
        h == match outcome {
            Ok(r) => handle_of(r),
            Err(_) => HelioHandle::spec_null(),
        },
        match outcome {
            Ok(r) => h.slot == r.slot && h.generation == r.generation,
            Err(_) => h.slot == 0xffff_ffffu32 && h.generation == 0,
        },
{
    match outcome {
        Ok(r) => HelioHandle::from(r),
        Err(_) => HelioHandle::null(),
    }
}

} // verus!
