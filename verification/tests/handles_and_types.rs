use helio_ffi::handles::to_helio_handle;
use helio_ffi::types::{HelioHandle, NULL_SLOT};

#[test]
fn null_handle_has_max_slot_and_zero_generation() {
    let h = HelioHandle::null();
    assert_eq!(h.slot, u32::MAX);
    assert_eq!(h.generation, 0);
    assert!(h.is_null());
    assert_eq!(NULL_SLOT, u32::MAX);
}

#[test]
fn default_handle_is_null() {
    let h = HelioHandle::default();
    assert_eq!(h, HelioHandle::null());
    assert!(h.is_null());
}

#[test]
fn null_depends_on_slot_only() {
    assert!(HelioHandle { slot: u32::MAX, generation: 7 }.is_null());
    assert!(!HelioHandle { slot: 0, generation: 0 }.is_null());
    assert!(!HelioHandle { slot: u32::MAX - 1, generation: 0 }.is_null());
}

struct EngineId {
    index: u32,
    gen: u32,
}

#[test]
fn to_helio_handle_reads_slot_and_generation() {
    let id = EngineId { index: 12, gen: 3 };
    let h = to_helio_handle(id, |e: &EngineId| e.index, |e: &EngineId| e.gen);
    assert_eq!(h, HelioHandle { slot: 12, generation: 3 });
}

#[test]
fn to_helio_handle_keeps_extreme_values() {
    let h = to_helio_handle((u32::MAX, u32::MAX), |p: &(u32, u32)| p.0, |p: &(u32, u32)| p.1);
    assert_eq!(h.slot, u32::MAX);
    assert_eq!(h.generation, u32::MAX);
    assert!(h.is_null());
}
