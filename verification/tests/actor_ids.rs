use helio_ffi::actor::{HelioSceneActorId, HelioSceneActorType, ResourceId, SceneActorId};
use helio_ffi::types::HelioHandle;

fn all_types() -> Vec<HelioSceneActorType> {
    vec![
        HelioSceneActorType::NoActor,
        HelioSceneActorType::Decal,
        HelioSceneActorType::Mesh,
        HelioSceneActorType::Light,
        HelioSceneActorType::ReflectionCapture,
        HelioSceneActorType::VirtualMesh,
        HelioSceneActorType::VirtualObject,
        HelioSceneActorType::Object,
        HelioSceneActorType::SectionedObject,
        HelioSceneActorType::WaterVolume,
        HelioSceneActorType::WaterHitbox,
        HelioSceneActorType::PostProcessVolume,
    ]
}

#[test]
fn actor_type_codes_are_zero_to_eleven_in_order() {
    for (i, t) in all_types().into_iter().enumerate() {
        assert_eq!(t.code(), i as u32);
    }
}

#[test]
fn none_actor_id_is_empty() {
    let id = HelioSceneActorId::none();
    assert_eq!(id.actor_type, HelioSceneActorType::NoActor);
    assert!(id.handle.is_null());
    assert_eq!(HelioSceneActorId::default(), id);
}

#[test]
fn c_id_maps_to_engine_variant() {
    let h = HelioHandle { slot: 4, generation: 9 };
    let r = ResourceId { slot: 4, generation: 9 };
    let mk = |t| HelioSceneActorId { actor_type: t, handle: h };
    assert_eq!(SceneActorId::from(mk(HelioSceneActorType::NoActor)), SceneActorId::NoActor);
    assert_eq!(SceneActorId::from(mk(HelioSceneActorType::Decal)), SceneActorId::Decal(r));
    assert_eq!(SceneActorId::from(mk(HelioSceneActorType::Mesh)), SceneActorId::Mesh(r));
    assert_eq!(SceneActorId::from(mk(HelioSceneActorType::Light)), SceneActorId::Light(r));
    assert_eq!(
        SceneActorId::from(mk(HelioSceneActorType::ReflectionCapture)),
        SceneActorId::ReflectionCapture(r)
    );
    assert_eq!(SceneActorId::from(mk(HelioSceneActorType::VirtualMesh)), SceneActorId::VirtualMesh(4));
    assert_eq!(SceneActorId::from(mk(HelioSceneActorType::VirtualObject)), SceneActorId::VirtualObject(r));
    assert_eq!(SceneActorId::from(mk(HelioSceneActorType::Object)), SceneActorId::Object(r));
    assert_eq!(SceneActorId::from(mk(HelioSceneActorType::SectionedObject)), SceneActorId::SectionedObject(r));
    assert_eq!(SceneActorId::from(mk(HelioSceneActorType::WaterVolume)), SceneActorId::WaterVolume(r));
    assert_eq!(SceneActorId::from(mk(HelioSceneActorType::WaterHitbox)), SceneActorId::WaterHitbox(r));
    assert_eq!(
        SceneActorId::from(mk(HelioSceneActorType::PostProcessVolume)),
        SceneActorId::PostProcessVolume(r)
    );
}

#[test]
fn engine_ids_round_trip_through_c() {
    let r = ResourceId { slot: 17, generation: 2 };
    let ids = vec![
        SceneActorId::NoActor,
        SceneActorId::Decal(r),
        SceneActorId::Mesh(r),
        SceneActorId::Light(r),
        SceneActorId::ReflectionCapture(r),
        SceneActorId::VirtualMesh(33),
        SceneActorId::VirtualObject(r),
        SceneActorId::Object(r),
        SceneActorId::SectionedObject(r),
        SceneActorId::WaterVolume(r),
        SceneActorId::WaterHitbox(r),
        SceneActorId::PostProcessVolume(r),
    ];
    for a in ids {
        let c = HelioSceneActorId::from(a);
        assert_eq!(SceneActorId::from(c), a);
    }
}

#[test]
fn c_ids_round_trip_except_empty_and_virtual_mesh() {
    let h = HelioHandle { slot: 5, generation: 8 };
    for t in all_types() {
        let id = HelioSceneActorId { actor_type: t, handle: h };
        let back = HelioSceneActorId::from(SceneActorId::from(id));
        assert_eq!(back.actor_type, t);
        match t {
            HelioSceneActorType::NoActor => assert_eq!(back, HelioSceneActorId::none()),
            HelioSceneActorType::VirtualMesh => {
                assert_eq!(back.handle, HelioHandle { slot: 5, generation: 0 })
            }
            _ => assert_eq!(back, id),
        }
    }
}

#[test]
fn engine_none_becomes_null_handle() {
    let c = HelioSceneActorId::from(SceneActorId::NoActor);
    assert_eq!(c.actor_type, HelioSceneActorType::NoActor);
    assert_eq!(c.handle, HelioHandle::null());
}

#[test]
fn virtual_mesh_gets_generation_zero() {
    let c = HelioSceneActorId::from(SceneActorId::VirtualMesh(99));
    assert_eq!(c.actor_type, HelioSceneActorType::VirtualMesh);
    assert_eq!(c.handle, HelioHandle { slot: 99, generation: 0 });
}

#[test]
fn resource_ids_and_handles_convert_both_ways() {
    let h = HelioHandle { slot: 1, generation: 2 };
    let r = ResourceId::from(h);
    assert_eq!(r, ResourceId { slot: 1, generation: 2 });
    assert_eq!(HelioHandle::from(r), h);
}
