use helio_ffi::actor::ResourceId;
use helio_ffi::codes::{AddressMode, FilterMode, MipmapFilterMode, Movability, TextureFormatKind};
use helio_ffi::scene::{
    handle_or_null, object_placement, sampler_from_codes, texture_upload, virtual_mesh_handle,
    virtual_object_placement, SamplerCodes,
};
use helio_ffi::types::HelioHandle;

fn codes(u: u32, v: u32, w: u32, mag: u32, min: u32, mip: u32) -> SamplerCodes {
    SamplerCodes {
        address_mode_u: u,
        address_mode_v: v,
        address_mode_w: w,
        mag_filter: mag,
        min_filter: min,
        mipmap_filter: mip,
    }
}

#[test]
fn sampler_codes_decode_independently() {
    let s = sampler_from_codes(&codes(1, 2, 3, 0, 1, 0));
    assert_eq!(s.address_mode_u, AddressMode::MirrorRepeat);
    assert_eq!(s.address_mode_v, AddressMode::ClampToEdge);
    assert_eq!(s.address_mode_w, AddressMode::ClampToBorder);
    assert_eq!(s.mag_filter, FilterMode::Nearest);
    assert_eq!(s.min_filter, FilterMode::Linear);
    assert_eq!(s.mipmap_filter, MipmapFilterMode::Nearest);
}

#[test]
fn texture_upload_keeps_data_and_decodes_codes() {
    let t = texture_upload(Some(String::from("albedo")), 2, 1, 0, vec![1, 2, 3, 4, 5, 6, 7, 8], &codes(9, 9, 9, 9, 9, 9));
    assert_eq!(t.label.as_deref(), Some("albedo"));
    assert_eq!((t.width, t.height), (2, 1));
    assert_eq!(t.format, TextureFormatKind::Rgba8Unorm);
    assert_eq!(t.data, vec![1, 2, 3, 4, 5, 6, 7, 8]);
    assert_eq!(t.sampler.address_mode_u, AddressMode::Repeat);
    assert_eq!(t.sampler.mag_filter, FilterMode::Linear);
    assert_eq!(t.sampler.mipmap_filter, MipmapFilterMode::Linear);
}

#[test]
fn texture_upload_without_label() {
    let t = texture_upload(None, 0, 0, 42, Vec::new(), &codes(0, 0, 0, 0, 0, 0));
    assert_eq!(t.label, None);
    assert_eq!(t.format, TextureFormatKind::Rgba8UnormSrgb);
    assert!(t.data.is_empty());
}

#[test]
fn object_placement_fields() {
    let p = object_placement(
        HelioHandle { slot: 1, generation: 2 },
        HelioHandle { slot: 3, generation: 4 },
        0x5,
        0xff00,
        1,
        77,
    );
    assert_eq!(p.mesh, ResourceId { slot: 1, generation: 2 });
    assert_eq!(p.material, ResourceId { slot: 3, generation: 4 });
    assert_eq!(p.flags, 0x5);
    assert_eq!(p.groups, 0xff00);
    assert_eq!(p.movability, Some(Movability::Stationary));
    assert_eq!(p.user_tag, 77);
    let q = object_placement(HelioHandle::null(), HelioHandle::null(), 0, 0, 0, 0);
    assert_eq!(q.movability, None);
    let m = object_placement(HelioHandle::null(), HelioHandle::null(), 0, 0, 5, 0);
    assert_eq!(m.movability, Some(Movability::Movable));
}

#[test]
fn virtual_object_placement_uses_slot_only() {
    let p = virtual_object_placement(HelioHandle { slot: 8, generation: 99 }, 3, 1, 2, 2);
    assert_eq!(p.virtual_mesh, 8);
    assert_eq!(p.material_id, 3);
    assert_eq!(p.flags, 1);
    assert_eq!(p.groups, 2);
    assert_eq!(p.movability, Some(Movability::Movable));
    let q = virtual_object_placement(HelioHandle { slot: 8, generation: 0 }, 3, 1, 2, 1);
    assert_eq!(q.movability, None);
}

#[test]
fn virtual_mesh_handle_has_zero_generation() {
    assert_eq!(virtual_mesh_handle(12), HelioHandle { slot: 12, generation: 0 });
}

#[test]
fn failed_insertion_gives_null_handle() {
    let ok: Result<ResourceId, String> = Ok(ResourceId { slot: 3, generation: 1 });
    assert_eq!(handle_or_null(ok), HelioHandle { slot: 3, generation: 1 });
    let err: Result<ResourceId, String> = Err(String::from("too many volumes"));
    let h = handle_or_null(err);
    assert!(h.is_null());
    assert_eq!(h, HelioHandle::null());
}
