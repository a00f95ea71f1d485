//! Scene actor identifiers on both sides of the C boundary.
//!
//! `HelioSceneActorId` is the C-facing pair (type tag, handle);
//! `SceneActorId` is the engine's tagged id, where every actor kind but
//! virtual meshes carries a generational `ResourceId` and virtual meshes
//! carry a bare slot number.

use vstd::prelude::*;
use crate::types::{HelioHandle, NULL_SLOT};

verus! {

/// Actor type discriminator. Its C value is given by `code`.
#[derive(Debug, Clone, Copy, PartialEq, Eq, Structural)]
pub enum HelioSceneActorType {
    NoActor,
    Decal,
    Mesh,
    Light,
    ReflectionCapture,
    VirtualMesh,
    VirtualObject,
    Object,
    SectionedObject,
    WaterVolume,
    WaterHitbox,
    PostProcessVolume,
}

impl HelioSceneActorType {
    pub open spec fn spec_code(self) -> u32 {
        match self {
            HelioSceneActorType::NoActor => 0,
            HelioSceneActorType::Decal => 1,
            HelioSceneActorType::Mesh => 2,
            HelioSceneActorType::Light => 3,
            HelioSceneActorType::ReflectionCapture => 4,
            HelioSceneActorType::VirtualMesh => 5,
            HelioSceneActorType::VirtualObject => 6,
            HelioSceneActorType::Object => 7,
            HelioSceneActorType::SectionedObject => 8,
            HelioSceneActorType::WaterVolume => 9,
            HelioSceneActorType::WaterHitbox => 10,
            HelioSceneActorType::PostProcessVolume => 11,
        }
    }

    /// The numeric value of this tag in the C API.
    pub fn code(self) -> (c: u32)
        ensures
            c == self.spec_code(),
    {
        match self {
            HelioSceneActorType::NoActor => 0,
            HelioSceneActorType::Decal => 1,
            HelioSceneActorType::Mesh => 2,
            HelioSceneActorType::Light => 3,
            HelioSceneActorType::ReflectionCapture => 4,
            HelioSceneActorType::VirtualMesh => 5,
            HelioSceneActorType::VirtualObject => 6,
            HelioSceneActorType::Object => 7,
            HelioSceneActorType::SectionedObject => 8,
            HelioSceneActorType::WaterVolume => 9,
            HelioSceneActorType::WaterHitbox => 10,
            HelioSceneActorType::PostProcessVolume => 11,
        }
    }
}

/// An actor id as C callers see it: a type tag and a handle.
#[derive(Debug, Clone, Copy, PartialEq, Eq, Structural)]
pub struct HelioSceneActorId {
    pub actor_type: HelioSceneActorType,
    pub handle: HelioHandle,
}

impl HelioSceneActorId {
    /// The id that denotes no actor: tag `NoActor` and the null handle.
    pub open spec fn spec_none() -> HelioSceneActorId {
        HelioSceneActorId { actor_type: HelioSceneActorType::NoActor, handle: HelioHandle::spec_null() }
    }

    pub fn none() -> (id: HelioSceneActorId)
        ensures
            id == HelioSceneActorId::spec_none(),
    {
        HelioSceneActorId { actor_type: HelioSceneActorType::NoActor, handle: HelioHandle::null() }
    }
}

impl Default for HelioSceneActorId {
    fn default() -> (id: HelioSceneActorId)
        ensures
            id == HelioSceneActorId::spec_none(),
    {
        HelioSceneActorId::none()
    }
}

/// The engine's generational id of a scene resource.
#[derive(Debug, Clone, Copy, PartialEq, Eq, Structural)]
pub struct ResourceId {
    pub slot: u32,
    pub generation: u32,
}

pub open spec fn resource_id_of(h: HelioHandle) -> ResourceId {
    ResourceId { slot: h.slot, generation: h.generation }
}

pub open spec fn handle_of(r: ResourceId) -> HelioHandle {
    HelioHandle { slot: r.slot, generation: r.generation }
}

impl From<HelioHandle> for ResourceId {
    fn from(h: HelioHandle) -> (r: ResourceId)
        ensures
            r == resource_id_of(h),
            r.slot == h.slot,
            r.generation == h.generation,
    {
        ResourceId { slot: h.slot, generation: h.generation }
    }
}

impl vstd::std_specs::convert::FromSpecImpl<HelioHandle> for ResourceId {
    open spec fn obeys_from_spec() -> bool {
        true
    }

    open spec fn from_spec(h: HelioHandle) -> ResourceId {
        resource_id_of(h)
    }
}

impl From<ResourceId> for HelioHandle {
    fn from(r: ResourceId) -> (h: HelioHandle)
        ensures
            h == handle_of(r),
            h.slot == r.slot,
            h.generation == r.generation,
    {
        HelioHandle { slot: r.slot, generation: r.generation }
    }
}

impl vstd::std_specs::convert::FromSpecImpl<ResourceId> for HelioHandle {
    open spec fn obeys_from_spec() -> bool {
        true
    }

    open spec fn from_spec(r: ResourceId) -> HelioHandle {
        handle_of(r)
    }
}

/// The engine's tagged actor id.
#[derive(Debug, Clone, Copy, PartialEq, Eq, Structural)]
pub enum SceneActorId {
    NoActor,
    Decal(ResourceId),
    Mesh(ResourceId),
    Light(ResourceId),
    ReflectionCapture(ResourceId),
    VirtualMesh(u32),
    VirtualObject(ResourceId),
    Object(ResourceId),
    SectionedObject(ResourceId),
    WaterVolume(ResourceId),
    WaterHitbox(ResourceId),
    PostProcessVolume(ResourceId),
}

/// The engine id that a C actor id denotes: the tag picks the variant, the
/// handle becomes its resource id; a virtual mesh keeps only the slot.
pub open spec fn actor_from_c(id: HelioSceneActorId) -> SceneActorId {
    let r = resource_id_of(id.handle);
    match id.actor_type {
        HelioSceneActorType::NoActor => SceneActorId::NoActor,
        HelioSceneActorType::Decal => SceneActorId::Decal(r),
        HelioSceneActorType::Mesh => SceneActorId::Mesh(r),
        HelioSceneActorType::Light => SceneActorId::Light(r),
        HelioSceneActorType::ReflectionCapture => SceneActorId::ReflectionCapture(r),
        HelioSceneActorType::VirtualMesh => SceneActorId::VirtualMesh(id.handle.slot),
        HelioSceneActorType::VirtualObject => SceneActorId::VirtualObject(r),
        HelioSceneActorType::Object => SceneActorId::Object(r),
        HelioSceneActorType::SectionedObject => SceneActorId::SectionedObject(r),
        HelioSceneActorType::WaterVolume => SceneActorId::WaterVolume(r),
        HelioSceneActorType::WaterHitbox => SceneActorId::WaterHitbox(r),
        HelioSceneActorType::PostProcessVolume => SceneActorId::PostProcessVolume(r),
    }
}

/// The C actor id of an engine id: `NoActor` becomes the null handle, a
/// virtual mesh gets generation 0, every other kind keeps slot and generation.
pub open spec fn actor_to_c(a: SceneActorId) -> HelioSceneActorId {
    let (t, h) = match a {
        SceneActorId::NoActor => (HelioSceneActorType::NoActor, HelioHandle::spec_null()),
        SceneActorId::Decal(r) => (HelioSceneActorType::Decal, handle_of(r)),
        SceneActorId::Mesh(r) => (HelioSceneActorType::Mesh, handle_of(r)),
        SceneActorId::Light(r) => (HelioSceneActorType::Light, handle_of(r)),
        SceneActorId::ReflectionCapture(r) => (HelioSceneActorType::ReflectionCapture, handle_of(r)),
        SceneActorId::VirtualMesh(s) => (HelioSceneActorType::VirtualMesh, HelioHandle { slot: s, generation: 0 }),
        SceneActorId::VirtualObject(r) => (HelioSceneActorType::VirtualObject, handle_of(r)),
        SceneActorId::Object(r) => (HelioSceneActorType::Object, handle_of(r)),
        SceneActorId::SectionedObject(r) => (HelioSceneActorType::SectionedObject, handle_of(r)),
        SceneActorId::WaterVolume(r) => (HelioSceneActorType::WaterVolume, handle_of(r)),
        SceneActorId::WaterHitbox(r) => (HelioSceneActorType::WaterHitbox, handle_of(r)),
        SceneActorId::PostProcessVolume(r) => (HelioSceneActorType::PostProcessVolume, handle_of(r)),
    };
    HelioSceneActorId { actor_type: t, handle: h }
}

impl From<HelioSceneActorId> for SceneActorId {
    fn from(id: HelioSceneActorId) -> (a: SceneActorId)
        ensures
            a == actor_from_c(id),
    {
        let r = ResourceId::from(id.handle);
        match id.actor_type {
            HelioSceneActorType::NoActor => SceneActorId::NoActor,
            HelioSceneActorType::Decal => SceneActorId::Decal(r),
            HelioSceneActorType::Mesh => SceneActorId::Mesh(r),
            HelioSceneActorType::Light => SceneActorId::Light(r),
            HelioSceneActorType::ReflectionCapture => SceneActorId::ReflectionCapture(r),
            HelioSceneActorType::VirtualMesh => SceneActorId::VirtualMesh(id.handle.slot),
            HelioSceneActorType::VirtualObject => SceneActorId::VirtualObject(r),
            HelioSceneActorType::Object => SceneActorId::Object(r),
            HelioSceneActorType::SectionedObject => SceneActorId::SectionedObject(r),
            HelioSceneActorType::WaterVolume => SceneActorId::WaterVolume(r),
            HelioSceneActorType::WaterHitbox => SceneActorId::WaterHitbox(r),
            HelioSceneActorType::PostProcessVolume => SceneActorId::PostProcessVolume(r),
        }
    }
}

impl vstd::std_specs::convert::FromSpecImpl<HelioSceneActorId> for SceneActorId {
    open spec fn obeys_from_spec() -> bool {
        true
    }

    open spec fn from_spec(id: HelioSceneActorId) -> SceneActorId {
        actor_from_c(id)
    }
}

impl From<SceneActorId> for HelioSceneActorId {
    fn from(a: SceneActorId) -> (id: HelioSceneActorId)
        ensures
            id == actor_to_c(a),
    {
        let (t, h) = match a {
            SceneActorId::NoActor => (HelioSceneActorType::NoActor, HelioHandle::null()),
            SceneActorId::Decal(r) => (HelioSceneActorType::Decal, HelioHandle::from(r)),
            SceneActorId::Mesh(r) => (HelioSceneActorType::Mesh, HelioHandle::from(r)),
            SceneActorId::Light(r) => (HelioSceneActorType::Light, HelioHandle::from(r)),
            SceneActorId::ReflectionCapture(r) => (HelioSceneActorType::ReflectionCapture, HelioHandle::from(r)),
            SceneActorId::VirtualMesh(s) => (HelioSceneActorType::VirtualMesh, HelioHandle { slot: s, generation: 0 }),
            SceneActorId::VirtualObject(r) => (HelioSceneActorType::VirtualObject, HelioHandle::from(r)),
            SceneActorId::Object(r) => (HelioSceneActorType::Object, HelioHandle::from(r)),
            SceneActorId::SectionedObject(r) => (HelioSceneActorType::SectionedObject, HelioHandle::from(r)),
            SceneActorId::WaterVolume(r) => (HelioSceneActorType::WaterVolume, HelioHandle::from(r)),
            SceneActorId::WaterHitbox(r) => (HelioSceneActorType::WaterHitbox, HelioHandle::from(r)),
            SceneActorId::PostProcessVolume(r) => (HelioSceneActorType::PostProcessVolume, HelioHandle::from(r)),
        };
        HelioSceneActorId { actor_type: t, handle: h }
    }
}

impl vstd::std_specs::convert::FromSpecImpl<SceneActorId> for HelioSceneActorId {
    open spec fn obeys_from_spec() -> bool {
        true
    }

    open spec fn from_spec(a: SceneActorId) -> HelioSceneActorId {
        actor_to_c(a)
    }
}

/// The C tag values: `NoActor` 0, decal 1, mesh 2, light 3, reflection
/// capture 4, virtual mesh 5, virtual object 6, object 7, sectioned object 8,
/// water volume 9, water hitbox 10, post-process volume 11.
pub proof fn law_actor_type_codes()
    ensures
        HelioSceneActorType::NoActor.spec_code() == 0,
        HelioSceneActorType::Decal.spec_code() == 1,
        HelioSceneActorType::Mesh.spec_code() == 2,
        HelioSceneActorType::Light.spec_code() == 3,
        HelioSceneActorType::ReflectionCapture.spec_code() == 4,
        HelioSceneActorType::VirtualMesh.spec_code() == 5,
        HelioSceneActorType::VirtualObject.spec_code() == 6,
        HelioSceneActorType::Object.spec_code() == 7,
        HelioSceneActorType::SectionedObject.spec_code() == 8,
        HelioSceneActorType::WaterVolume.spec_code() == 9,
        HelioSceneActorType::WaterHitbox.spec_code() == 10,
        HelioSceneActorType::PostProcessVolume.spec_code() == 11,
{
}

/// A C actor id names the engine actor of the same kind, and a
/// resource-backed actor keeps the handle's slot and generation; a virtual
/// mesh keeps the slot.
pub proof fn law_actor_from_c_kinds(id: HelioSceneActorId)
    ensures
        (id.actor_type == HelioSceneActorType::NoActor) <==> (actor_from_c(id) == SceneActorId::NoActor),
        (id.actor_type == HelioSceneActorType::VirtualMesh) <==> (actor_from_c(id) == SceneActorId::VirtualMesh(id.handle.slot)),
        (id.actor_type == HelioSceneActorType::Decal) <==> (actor_from_c(id) == SceneActorId::Decal(ResourceId { slot: id.handle.slot, generation: id.handle.generation })),
        (id.actor_type == HelioSceneActorType::Mesh) <==> (actor_from_c(id) == SceneActorId::Mesh(ResourceId { slot: id.handle.slot, generation: id.handle.generation })),
        (id.actor_type == HelioSceneActorType::Light) <==> (actor_from_c(id) == SceneActorId::Light(ResourceId { slot: id.handle.slot, generation: id.handle.generation })),
        (id.actor_type == HelioSceneActorType::ReflectionCapture) <==> (actor_from_c(id) == SceneActorId::ReflectionCapture(ResourceId { slot: id.handle.slot, generation: id.handle.generation })),
        (id.actor_type == HelioSceneActorType::VirtualObject) <==> (actor_from_c(id) == SceneActorId::VirtualObject(ResourceId { slot: id.handle.slot, generation: id.handle.generation })),
        (id.actor_type == HelioSceneActorType::Object) <==> (actor_from_c(id) == SceneActorId::Object(ResourceId { slot: id.handle.slot, generation: id.handle.generation })),
        (id.actor_type == HelioSceneActorType::SectionedObject) <==> (actor_from_c(id) == SceneActorId::SectionedObject(ResourceId { slot: id.handle.slot, generation: id.handle.generation })),
        (id.actor_type == HelioSceneActorType::WaterVolume) <==> (actor_from_c(id) == SceneActorId::WaterVolume(ResourceId { slot: id.handle.slot, generation: id.handle.generation })),
        (id.actor_type == HelioSceneActorType::WaterHitbox) <==> (actor_from_c(id) == SceneActorId::WaterHitbox(ResourceId { slot: id.handle.slot, generation: id.handle.generation })),
        (id.actor_type == HelioSceneActorType::PostProcessVolume) <==> (actor_from_c(id) == SceneActorId::PostProcessVolume(ResourceId { slot: id.handle.slot, generation: id.handle.generation })),
{
}

/// An engine actor is reported to C with the tag of its kind and a handle
/// with its resource's slot and generation; a virtual mesh gets its slot and
/// generation 0, and no actor gets the null handle.
pub proof fn law_actor_to_c_kinds(a: SceneActorId)
    ensures
        a == SceneActorId::NoActor ==> actor_to_c(a) == (HelioSceneActorId { actor_type: HelioSceneActorType::NoActor, handle: HelioHandle { slot: 0xffff_ffffu32, generation: 0 } }),
        a matches SceneActorId::VirtualMesh(s) ==> actor_to_c(a) == (HelioSceneActorId { actor_type: HelioSceneActorType::VirtualMesh, handle: HelioHandle { slot: s, generation: 0 } }),
        a matches SceneActorId::Decal(r) ==> actor_to_c(a) == (HelioSceneActorId { actor_type: HelioSceneActorType::Decal, handle: HelioHandle { slot: r.slot, generation: r.generation } }),
        a matches SceneActorId::Mesh(r) ==> actor_to_c(a) == (HelioSceneActorId { actor_type: HelioSceneActorType::Mesh, handle: HelioHandle { slot: r.slot, generation: r.generation } }),
        a matches SceneActorId::Light(r) ==> actor_to_c(a) == (HelioSceneActorId { actor_type: HelioSceneActorType::Light, handle: HelioHandle { slot: r.slot, generation: r.generation } }),
        a matches SceneActorId::ReflectionCapture(r) ==> actor_to_c(a) == (HelioSceneActorId { actor_type: HelioSceneActorType::ReflectionCapture, handle: HelioHandle { slot: r.slot, generation: r.generation } }),
        a matches SceneActorId::VirtualObject(r) ==> actor_to_c(a) == (HelioSceneActorId { actor_type: HelioSceneActorType::VirtualObject, handle: HelioHandle { slot: r.slot, generation: r.generation } }),
        a matches SceneActorId::Object(r) ==> actor_to_c(a) == (HelioSceneActorId { actor_type: HelioSceneActorType::Object, handle: HelioHandle { slot: r.slot, generation: r.generation } }),
        a matches SceneActorId::SectionedObject(r) ==> actor_to_c(a) == (HelioSceneActorId { actor_type: HelioSceneActorType::SectionedObject, handle: HelioHandle { slot: r.slot, generation: r.generation } }),
        a matches SceneActorId::WaterVolume(r) ==> actor_to_c(a) == (HelioSceneActorId { actor_type: HelioSceneActorType::WaterVolume, handle: HelioHandle { slot: r.slot, generation: r.generation } }),
        a matches SceneActorId::WaterHitbox(r) ==> actor_to_c(a) == (HelioSceneActorId { actor_type: HelioSceneActorType::WaterHitbox, handle: HelioHandle { slot: r.slot, generation: r.generation } }),
        a matches SceneActorId::PostProcessVolume(r) ==> actor_to_c(a) == (HelioSceneActorId { actor_type: HelioSceneActorType::PostProcessVolume, handle: HelioHandle { slot: r.slot, generation: r.generation } }),
{
}

/// A handle and the resource id it names carry the same slot and the same
/// generation, in both directions.
pub proof fn law_handle_fields_kept(h: HelioHandle, r: ResourceId)
    ensures
        resource_id_of(h).slot == h.slot,
        resource_id_of(h).generation == h.generation,
        handle_of(r).slot == r.slot,
        handle_of(r).generation == r.generation,
{
}

/// A resource id survives the trip to a handle and back, and so does a handle.
pub proof fn law_resource_handle_round_trip(r: ResourceId, h: HelioHandle)
    ensures
        resource_id_of(handle_of(r)) == r,
        handle_of(resource_id_of(h)) == h,
{
}

/// Every engine actor id comes back unchanged from its C form.
pub proof fn law_engine_actor_round_trip(a: SceneActorId)
    ensures
        actor_from_c(actor_to_c(a)) == a,
{
}

/// A C actor id that goes to the engine and back keeps its tag; its handle
/// comes back unchanged for every resource-backed kind, becomes the null
/// handle for `NoActor`, and loses its generation for a virtual mesh.
pub proof fn law_c_actor_round_trip(id: HelioSceneActorId)
    ensures
        actor_to_c(actor_from_c(id)).actor_type == id.actor_type,
        id.actor_type == HelioSceneActorType::NoActor ==> actor_to_c(actor_from_c(id))
            == HelioSceneActorId::spec_none(),
        id.actor_type == HelioSceneActorType::VirtualMesh ==> actor_to_c(actor_from_c(id)).handle
            == (HelioHandle { slot: id.handle.slot, generation: 0 }),
        id.actor_type != HelioSceneActorType::NoActor && id.actor_type
            != HelioSceneActorType::VirtualMesh ==> actor_to_c(actor_from_c(id)) == id,
{
}

/// The empty C id and the engine's `NoActor` correspond to each other, and
/// only `NoActor` maps to the `NoActor` tag.
pub proof fn law_no_actor_correspondence(a: SceneActorId)
    ensures
        actor_from_c(HelioSceneActorId::spec_none()) == SceneActorId::NoActor,
        actor_to_c(SceneActorId::NoActor) == HelioSceneActorId::spec_none(),
        (actor_to_c(a).actor_type == HelioSceneActorType::NoActor) <==> (a == SceneActorId::NoActor),
{
}

} // verus!
