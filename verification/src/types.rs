//! Plain C-layout value types shared across the API.

use vstd::prelude::*;

verus! {

/// Slot value that marks a handle as empty.
pub const NULL_SLOT: u32 = 0xffff_ffffu32;

/// A generational handle to a scene resource: a slot index plus the
/// generation that the slot had when the handle was issued.
#[derive(Debug, Clone, Copy, PartialEq, Eq, Hash, Structural)]
pub struct HelioHandle {
    pub slot: u32,
    pub generation: u32,
}

impl HelioHandle {
    /// The empty handle: slot `u32::MAX`, generation 0.
    pub open spec fn spec_null() -> HelioHandle {
        HelioHandle { slot: NULL_SLOT, generation: 0 }
    }

    /// Whether a handle denotes no resource.
    pub open spec fn spec_is_null(self) -> bool {
        self.slot == NULL_SLOT
    }

    pub fn null() -> (h: HelioHandle)
        ensures
            h == HelioHandle::spec_null(),
    {
        HelioHandle { slot: NULL_SLOT, generation: 0 }
    }

    pub fn is_null(&self) -> (b: bool)
        ensures
            b == self.spec_is_null(),
    {
        self.slot == NULL_SLOT
    }
}

impl Default for HelioHandle {
    fn default() -> (h: HelioHandle)
        ensures
            h == HelioHandle::spec_null(),
    {
        HelioHandle::null()
    }
}

/// The null handle is null, and a handle is null exactly when its slot is
/// `u32::MAX`, whatever its generation.
pub proof fn law_null_handle(h: HelioHandle)
    ensures
        HelioHandle::spec_null().spec_is_null(),
        h.spec_is_null() <==> h.slot == 0xffff_ffffu32,
        h.spec_is_null() ==> (HelioHandle { slot: h.slot, generation: 0 }) == HelioHandle::spec_null(),
{
}

} // verus!
