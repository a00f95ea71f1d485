//! Building C handles from engine id values.

use vstd::prelude::*;
use crate::types::HelioHandle;

verus! {

/// Makes a handle from an engine id `h`, reading its slot with `slot_fn`
/// and its generation with `gen_fn`.
pub fn to_helio_handle<H, S: FnOnce(&H) -> u32, G: FnOnce(&H) -> u32>(
    h: H,
    slot_fn: S,
    gen_fn: G,
) -> (r: HelioHandle)
    requires
        call_requires(slot_fn, (&h,)),
        call_requires(gen_fn, (&h,)),
    ensures
        call_ensures(slot_fn, (&h,), r.slot),
        call_ensures(gen_fn, (&h,), r.generation),
{
    let slot = slot_fn(&h);
    let generation = gen_fn(&h);
    HelioHandle { slot, generation }
}

} // verus!
