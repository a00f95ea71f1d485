//! Decisions taken while bringing up the GPU: which adapter to use, which
//! surface format to configure, what to do with the outcome of acquiring the
//! next swapchain texture, and how the chosen adapter is described.

use vstd::prelude::*;
use crate::cstr::has_nul;

verus! {

/// Kind of a GPU adapter, as the graphics backend reports it.
#[derive(Debug, Clone, Copy, PartialEq, Eq, Structural)]
pub enum DeviceType {
    Other,
    IntegratedGpu,
    DiscreteGpu,
    VirtualGpu,
    Cpu,
}

/// Index of the first element of `s` that satisfies `p`, if any.
pub open spec fn first_index_where<A>(s: Seq<A>, p: spec_fn(A) -> bool) -> Option<int> {
    if exists|i: int| 0 <= i < s.len() && p(s[i]) {
        Some(choose|i: int| 0 <= i < s.len() && p(s[i]) && forall|j: int| 0 <= j < i ==> !p(s[j]))
    } else {
        None
    }
}

proof fn lemma_least_witness<A>(s: Seq<A>, p: spec_fn(A) -> bool, k: int)
    requires
        0 <= k < s.len(),
        p(s[k]),
    ensures
        exists|i: int| 0 <= i < s.len() && p(s[i]) && forall|j: int| 0 <= j < i ==> !p(s[j]),
    decreases k,
{
    if exists|j: int| 0 <= j < k && p(s[j]) {
        let j = choose|j: int| 0 <= j < k && p(s[j]);
        lemma_least_witness(s, p, j);
    } else {
        assert(forall|j: int| 0 <= j < k ==> !p(s[j]));
    }
}

/// `first_index_where` names the first element satisfying `p`, when there is one.
pub proof fn lemma_first_index_where<A>(s: Seq<A>, p: spec_fn(A) -> bool)
    ensures
        match first_index_where(s, p) {
            Some(i) => 0 <= i < s.len() && p(s[i]) && forall|j: int| 0 <= j < i ==> !p(s[j]),
            None => forall|j: int| 0 <= j < s.len() ==> !p(s[j]),
        },
{
    if exists|i: int| 0 <= i < s.len() && p(s[i]) {
        let k = choose|i: int| 0 <= i < s.len() && p(s[i]);
        lemma_least_witness(s, p, k);
    }
}

/// The predicate "is an adapter of kind `t`".
pub open spec fn kind_is(t: DeviceType) -> spec_fn(DeviceType) -> bool {
    |d: DeviceType| d == t
}

/// The adapter that bootstrap picks: the first discrete GPU; if there is
/// none, the first integrated GPU; any other kind is never picked.
pub open spec fn preferred_adapter(s: Seq<DeviceType>) -> Option<int> {
    match first_index_where(s, kind_is(DeviceType::DiscreteGpu)) {
        Some(i) => Some(i),
        None => first_index_where(s, kind_is(DeviceType::IntegratedGpu)),
    }
}

/// Picks the adapter to open among the enumerated ones, by their kinds.
pub fn select_adapter(kinds: &Vec<DeviceType>) -> (r: Option<usize>)
    ensures
        match r {
            Some(i) => preferred_adapter(kinds@) == Some(i as int),
            None => preferred_adapter(kinds@) is None,
        },
        forall|k: int| 0 <= k < kinds.len() && kinds@[k] == DeviceType::DiscreteGpu ==> (r matches Some(i)
            && i <= k && kinds@[i as int] == DeviceType::DiscreteGpu),
        (forall|k: int| 0 <= k < kinds.len() ==> kinds@[k] != DeviceType::DiscreteGpu) ==> forall|k: int|
            0 <= k < kinds.len() && kinds@[k] == DeviceType::IntegratedGpu ==> (r matches Some(i) && i <= k
            && kinds@[i as int] == DeviceType::IntegratedGpu),
        r matches Some(i) ==> i < kinds.len() && (kinds@[i as int] == DeviceType::DiscreteGpu
            || kinds@[i as int] == DeviceType::IntegratedGpu),
{
    proof {
        lemma_first_index_where(kinds@, kind_is(DeviceType::DiscreteGpu));
        lemma_first_index_where(kinds@, kind_is(DeviceType::IntegratedGpu));
    }
    let mut best: Option<usize> = None;
    let mut i: usize = 0;
    while i < kinds.len()
        invariant_except_break
            i <= kinds.len(),
            forall|j: int| 0 <= j < i ==> kinds@[j] != DeviceType::DiscreteGpu,
            match best {
                Some(b) => b < i && kinds@[b as int] == DeviceType::IntegratedGpu
                    && forall|j: int| 0 <= j < b ==> kinds@[j] != DeviceType::IntegratedGpu,
                None => forall|j: int| 0 <= j < i ==> kinds@[j] != DeviceType::IntegratedGpu,
            },
        ensures
            match best {
                Some(b) => preferred_adapter(kinds@) == Some(b as int),
                None => preferred_adapter(kinds@) is None,
            },
        decreases kinds.len() - i,
    {
        match kinds[i] {
            DeviceType::DiscreteGpu => {
                best = Some(i);
                break;
            },
            DeviceType::IntegratedGpu => {
                if best.is_none() {
                    best = Some(i);
                }
            },
            _ => {},
        }
        i = i + 1;
    }
    best
}

/// What bootstrap prints after the adapter name.
pub open spec fn spec_device_type_label(t: DeviceType) -> &'static str {
    match t {
        DeviceType::DiscreteGpu => "(Discrete GPU)",
        DeviceType::IntegratedGpu => "(Integrated GPU)",
        DeviceType::VirtualGpu => "(Virtual GPU)",
        DeviceType::Cpu => "(CPU)",
        DeviceType::Other => "(Other)",
    }
}

pub fn device_type_label(t: DeviceType) -> (s: &'static str)
    ensures
        s == spec_device_type_label(t),
{
    match t {
        DeviceType::DiscreteGpu => "(Discrete GPU)",
        DeviceType::IntegratedGpu => "(Integrated GPU)",
        DeviceType::VirtualGpu => "(Virtual GPU)",
        DeviceType::Cpu => "(CPU)",
        DeviceType::Other => "(Other)",
    }
}

/// How the adapter report names an adapter kind.
pub open spec fn spec_adapter_type_name(t: DeviceType) -> &'static str {
    match t {
        DeviceType::DiscreteGpu => "DiscreteGPU",
        DeviceType::IntegratedGpu => "IntegratedGPU",
        _ => "Other",
    }
}

pub fn adapter_type_name(t: DeviceType) -> (s: &'static str)
    ensures
        s == spec_adapter_type_name(t),
{
    match t {
        DeviceType::DiscreteGpu => "DiscreteGPU",
        DeviceType::IntegratedGpu => "IntegratedGPU",
        _ => "Other",
    }
}

/// The adapter report for an adapter called `name` of kind `t`:
/// `name (KIND)`, or the empty text when `name` holds a NUL byte.
pub open spec fn spec_adapter_summary(name: &str, t: DeviceType) -> Seq<char> {
    if name@.contains('\0') {
        Seq::empty()
    } else {
        name@ + " ("@ + spec_adapter_type_name(t)@ + ")"@
    }
}

pub fn adapter_summary(name: &str, t: DeviceType) -> (s: String)
    ensures
        s@ == spec_adapter_summary(name, t),
        !name@.contains('\0') ==> s@ == name@ + " ("@ + spec_adapter_type_name(t)@ + ")"@,
        name@.contains('\0') ==> s@.len() == 0,
{
    if has_nul(name) {
        return String::new();
    }
    let s = String::from_str(name);
    let s = s.concat(" (");
    let s = s.concat(adapter_type_name(t));
    s.concat(")")
}

/// The adapter report when no adapter has been selected.
pub fn no_adapter_summary() -> (s: String)
    ensures
        s@ == "No adapter selected"@,
{
    String::from_str("No adapter selected")
}

/// What the surface-format choice reads of one format the surface supports.
#[derive(Debug, Clone, Copy, PartialEq, Eq, Structural)]
pub struct SurfaceFormatTraits {
    /// The format is 8-bit RGBA, normalized, sRGB-encoded.
    pub is_rgba8_unorm_srgb: bool,
    /// The format is sRGB-encoded.
    pub is_srgb: bool,
}

/// The predicate "is the RGBA8 sRGB format".
pub open spec fn is_rgba8_srgb_format() -> spec_fn(SurfaceFormatTraits) -> bool {
    |f: SurfaceFormatTraits| f.is_rgba8_unorm_srgb
}

/// The predicate "is an sRGB format".
pub open spec fn is_srgb_format() -> spec_fn(SurfaceFormatTraits) -> bool {
    |f: SurfaceFormatTraits| f.is_srgb
}

/// The surface format bootstrap configures: the first RGBA8 sRGB format; else
/// the first sRGB format; else the first format offered.
pub open spec fn preferred_surface_format(s: Seq<SurfaceFormatTraits>) -> int {
    match first_index_where(s, is_rgba8_srgb_format()) {
        Some(i) => i,
        None => match first_index_where(s, is_srgb_format()) {
            Some(i) => i,
            None => 0,
        },
    }
}

/// Index, among the formats a surface supports, of the one to configure.
/// The surface must offer at least one format.
pub fn choose_surface_format(formats: &Vec<SurfaceFormatTraits>) -> (i: usize)
    requires
        formats.len() > 0,
    ensures
        i < formats.len(),
        i as int == preferred_surface_format(formats@),
        forall|k: int| 0 <= k < formats.len() && (#[trigger] formats@[k]).is_rgba8_unorm_srgb
            ==> formats@[i as int].is_rgba8_unorm_srgb && i <= k,
        (forall|k: int| 0 <= k < formats.len() ==> !formats@[k].is_rgba8_unorm_srgb) ==> forall|k: int|
            0 <= k < formats.len() && (#[trigger] formats@[k]).is_srgb ==> formats@[i as int].is_srgb && i <= k,
        (forall|k: int| 0 <= k < formats.len() ==> !formats@[k].is_rgba8_unorm_srgb && !formats@[k].is_srgb)
            ==> i == 0,
{
    proof {
        lemma_first_index_where(formats@, is_rgba8_srgb_format());
        lemma_first_index_where(formats@, is_srgb_format());
    }
    let mut srgb: Option<usize> = None;
    let mut i: usize = 0;
    while i < formats.len()
        invariant
            i <= formats.len(),
            forall|j: int| 0 <= j < i ==> !formats@[j].is_rgba8_unorm_srgb,
            match srgb {
                Some(b) => b < i && formats@[b as int].is_srgb
                    && forall|j: int| 0 <= j < b ==> !formats@[j].is_srgb,
                None => forall|j: int| 0 <= j < i ==> !formats@[j].is_srgb,
            },
        decreases formats.len() - i,
    {
        if formats[i].is_rgba8_unorm_srgb {
            return i;
        }
        if srgb.is_none() && formats[i].is_srgb {
            srgb = Some(i);
        }
        i = i + 1;
    }
    match srgb {
        Some(b) => b,
        None => 0,
    }
}

/// Outcome of asking the surface for its next texture, without the texture.
#[derive(Debug, Clone, Copy, PartialEq, Eq, Structural)]
pub enum AcquireStatus {
    Success,
    Suboptimal,
    Timeout,
    Occluded,
    Outdated,
    Lost,
    Validation,
}

/// How many times, per frame, a timed-out acquire is retried after
/// polling the device.
pub const ACQUIRE_POLL_LIMIT: u32 = 3u32;

/// What has already been done to acquire the current frame's texture.
#[derive(Debug, Clone, Copy, PartialEq, Eq, Structural)]
pub struct AcquireAttempts {
    /// The surface was reconfigured after an outdated acquire.
    pub reconfigured: bool,
    /// How many times the device was polled after a timed-out acquire.
    pub polls: u32,
}

impl AcquireAttempts {
    /// Nothing done yet for this frame.
    pub fn first() -> (a: AcquireAttempts)
        ensures
            a == (AcquireAttempts { reconfigured: false, polls: 0 }),
    {
        AcquireAttempts { reconfigured: false, polls: 0 }
    }
}

/// What to do after an acquire attempt.
#[derive(Debug, Clone, Copy, PartialEq, Eq, Structural)]
pub enum AcquireAction {
    /// Hand out a view of the acquired texture.
    UseTexture,
    /// Reconfigure the surface and try again.
    Reconfigure,
    /// Poll the device, so that GPU work advances and frees swapchain
    /// textures, and try again.
    PollAndRetry,
    /// Give up on this frame (the caller gets a null view).
    GiveUp,
}

/// The action for `status` given what was already tried for this frame:
/// use a texture that was acquired; reconfigure once on an outdated
/// surface; poll and retry a timeout up to `ACQUIRE_POLL_LIMIT` times;
/// otherwise give up.
pub open spec fn spec_acquire_action(status: AcquireStatus, attempts: AcquireAttempts) -> AcquireAction {
    match status {
        AcquireStatus::Success | AcquireStatus::Suboptimal => AcquireAction::UseTexture,
        AcquireStatus::Outdated => if attempts.reconfigured {
            AcquireAction::GiveUp
        } else {
            AcquireAction::Reconfigure
        },
        AcquireStatus::Timeout => if attempts.polls < ACQUIRE_POLL_LIMIT {
            AcquireAction::PollAndRetry
        } else {
            AcquireAction::GiveUp
        },
        _ => AcquireAction::GiveUp,
    }
}

pub fn acquire_action(status: AcquireStatus, attempts: AcquireAttempts) -> (a: AcquireAction)
    ensures
        a == spec_acquire_action(status, attempts),
{
    match status {
        AcquireStatus::Success | AcquireStatus::Suboptimal => AcquireAction::UseTexture,
        AcquireStatus::Outdated => if attempts.reconfigured {
            AcquireAction::GiveUp
        } else {
            AcquireAction::Reconfigure
        },
        AcquireStatus::Timeout => if attempts.polls < ACQUIRE_POLL_LIMIT {
            AcquireAction::PollAndRetry
        } else {
            AcquireAction::GiveUp
        },
        _ => AcquireAction::GiveUp,
    }
}

/// What has been tried once `action` is carried out: a reconfigure is
/// remembered, a poll is counted, other actions change nothing.
pub open spec fn spec_attempts_after(attempts: AcquireAttempts, action: AcquireAction) -> AcquireAttempts {
    match action {
        AcquireAction::Reconfigure => AcquireAttempts { reconfigured: true, polls: attempts.polls },
        AcquireAction::PollAndRetry => AcquireAttempts {
            reconfigured: attempts.reconfigured,
            polls: (attempts.polls + 1) as u32,
        },
        _ => attempts,
    }
}

/// Records that `action`, chosen for `status`, was carried out.
pub fn attempts_after(status: AcquireStatus, attempts: AcquireAttempts, action: AcquireAction) -> (next: AcquireAttempts)
    requires
        action == spec_acquire_action(status, attempts),
    ensures
        next == spec_attempts_after(attempts, action),
{
    match action {
        AcquireAction::Reconfigure => AcquireAttempts { reconfigured: true, polls: attempts.polls },
        AcquireAction::PollAndRetry => AcquireAttempts {
            reconfigured: attempts.reconfigured,
            polls: attempts.polls + 1,
        },
        _ => attempts,
    }
}

/// What an acquire attempt leads to: an acquired texture (even a suboptimal
/// one) is always used; an outdated surface is reconfigured the first time
/// and given up the second; a timeout polls the device and retries while
/// fewer than `ACQUIRE_POLL_LIMIT` polls were made, then gives up; an
/// occluded or lost surface or a validation error gives up. Carrying out a
/// reconfigure marks it done and keeps the poll count; carrying out a poll
/// adds one to the count and keeps the reconfigure mark.
pub proof fn law_acquire_table(status: AcquireStatus, attempts: AcquireAttempts)
    requires
        attempts.polls <= ACQUIRE_POLL_LIMIT,
    ensures
        (status == AcquireStatus::Success || status == AcquireStatus::Suboptimal)
            <==> spec_acquire_action(status, attempts) == AcquireAction::UseTexture,
        (status == AcquireStatus::Outdated && !attempts.reconfigured) <==> spec_acquire_action(status, attempts)
            == AcquireAction::Reconfigure,
        (status == AcquireStatus::Timeout && attempts.polls < ACQUIRE_POLL_LIMIT) <==> spec_acquire_action(
            status,
            attempts,
        ) == AcquireAction::PollAndRetry,
        (status == AcquireStatus::Occluded || status == AcquireStatus::Lost || status
            == AcquireStatus::Validation) ==> spec_acquire_action(status, attempts) == AcquireAction::GiveUp,
        spec_attempts_after(attempts, AcquireAction::Reconfigure) == (AcquireAttempts {
            reconfigured: true,
            polls: attempts.polls,
        }),
        attempts.polls < ACQUIRE_POLL_LIMIT ==> spec_attempts_after(attempts, AcquireAction::PollAndRetry).polls
            == attempts.polls + 1,
        spec_attempts_after(attempts, AcquireAction::PollAndRetry).reconfigured == attempts.reconfigured,
        ACQUIRE_POLL_LIMIT == 3,
{
}

/// Retries left for a frame: one reconfigure if not yet used, plus the
/// polls not yet used.
pub open spec fn retries_left(a: AcquireAttempts) -> int {
    (if a.reconfigured { 0int } else { 1int }) + (ACQUIRE_POLL_LIMIT - a.polls)
}

/// Every retry uses up one of a frame's retries, so acquiring a frame takes
/// at most `ACQUIRE_POLL_LIMIT + 2` attempts; the surface is reconfigured at
/// most once and the device polled at most `ACQUIRE_POLL_LIMIT` times.
pub proof fn law_acquire_retries_bounded(status: AcquireStatus, attempts: AcquireAttempts)
    requires
        attempts.polls <= ACQUIRE_POLL_LIMIT,
    ensures
        ({
            let action = spec_acquire_action(status, attempts);
            let next = spec_attempts_after(attempts, action);
            &&& next.polls <= ACQUIRE_POLL_LIMIT
            &&& 0 <= retries_left(next) <= retries_left(attempts) <= ACQUIRE_POLL_LIMIT + 1
            &&& (action == AcquireAction::Reconfigure || action == AcquireAction::PollAndRetry)
                ==> retries_left(next) < retries_left(attempts)
            &&& attempts.reconfigured ==> action != AcquireAction::Reconfigure
            &&& attempts.polls == ACQUIRE_POLL_LIMIT ==> action != AcquireAction::PollAndRetry
        }),
{
}

/// How adapters are named: in the printout "(Discrete GPU)", "(Integrated
/// GPU)", "(Virtual GPU)", "(CPU)", "(Other)"; in the adapter report
/// "DiscreteGPU", "IntegratedGPU", and "Other" for every other kind.
pub proof fn law_adapter_names(t: DeviceType)
    ensures
        t == DeviceType::DiscreteGpu ==> spec_device_type_label(t) == "(Discrete GPU)",
        t == DeviceType::IntegratedGpu ==> spec_device_type_label(t) == "(Integrated GPU)",
        t == DeviceType::VirtualGpu ==> spec_device_type_label(t) == "(Virtual GPU)",
        t == DeviceType::Cpu ==> spec_device_type_label(t) == "(CPU)",
        t == DeviceType::Other ==> spec_device_type_label(t) == "(Other)",
        t == DeviceType::DiscreteGpu ==> spec_adapter_type_name(t) == "DiscreteGPU",
        t == DeviceType::IntegratedGpu ==> spec_adapter_type_name(t) == "IntegratedGPU",
        (t != DeviceType::DiscreteGpu && t != DeviceType::IntegratedGpu) ==> spec_adapter_type_name(t) == "Other",
{
}

/// The adapter pick never takes a virtual, CPU or unknown adapter; it takes
/// a discrete GPU whenever one is offered, and then one no later than any
/// other discrete GPU; without a discrete GPU it takes an integrated GPU no
/// later than any other; it finds an adapter exactly when a discrete or
/// integrated GPU is offered.
pub proof fn law_adapter_preference(s: Seq<DeviceType>)
    ensures
        preferred_adapter(s) matches Some(i) ==> 0 <= i < s.len() && (s[i] == DeviceType::DiscreteGpu
            || s[i] == DeviceType::IntegratedGpu),
        forall|k: int| 0 <= k < s.len() && s[k] == DeviceType::DiscreteGpu ==> (preferred_adapter(s) matches Some(
            i) && i <= k && s[i] == DeviceType::DiscreteGpu),
        (forall|k: int| 0 <= k < s.len() ==> s[k] != DeviceType::DiscreteGpu) ==> forall|k: int|
            0 <= k < s.len() && s[k] == DeviceType::IntegratedGpu ==> (preferred_adapter(s) matches Some(i)
            && i <= k && s[i] == DeviceType::IntegratedGpu),
        (s.contains(DeviceType::DiscreteGpu) || s.contains(DeviceType::IntegratedGpu))
            <==> preferred_adapter(s) is Some,
{
    lemma_first_index_where(s, kind_is(DeviceType::DiscreteGpu));
    lemma_first_index_where(s, kind_is(DeviceType::IntegratedGpu));
    assert forall|k: int| 0 <= k < s.len() && s[k] == DeviceType::DiscreteGpu implies (preferred_adapter(
        s) matches Some(i) && i <= k && s[i] == DeviceType::DiscreteGpu) by {
        assert(kind_is(DeviceType::DiscreteGpu)(s[k]));
    }
    assert forall|k: int| 0 <= k < s.len() && s[k] == DeviceType::IntegratedGpu && (forall|j: int|
        0 <= j < s.len() ==> s[j] != DeviceType::DiscreteGpu) implies (preferred_adapter(s) matches Some(i)
        && i <= k && s[i] == DeviceType::IntegratedGpu) by {
        assert(kind_is(DeviceType::IntegratedGpu)(s[k]));
    }
    if s.contains(DeviceType::DiscreteGpu) {
        let k = choose|k: int| 0 <= k < s.len() && s[k] == DeviceType::DiscreteGpu;
        assert(kind_is(DeviceType::DiscreteGpu)(s[k]));
    }
    if s.contains(DeviceType::IntegratedGpu) {
        let k = choose|k: int| 0 <= k < s.len() && s[k] == DeviceType::IntegratedGpu;
        assert(kind_is(DeviceType::IntegratedGpu)(s[k]));
    }
    if let Some(i) = preferred_adapter(s) {
        assert(s.contains(s[i]));
    }
}

/// The configured format is an RGBA8 sRGB format whenever the surface offers
/// one, and no later than any RGBA8 sRGB format offered; without one, it is
/// an sRGB format whenever one is offered, no later than any sRGB format
/// offered; without either, it is the first format.
pub proof fn law_surface_format_preference(s: Seq<SurfaceFormatTraits>)
    requires
        s.len() > 0,
    ensures
        0 <= preferred_surface_format(s) < s.len(),
        forall|k: int| 0 <= k < s.len() && (#[trigger] s[k]).is_rgba8_unorm_srgb
            ==> s[preferred_surface_format(s)].is_rgba8_unorm_srgb && preferred_surface_format(s) <= k,
        (forall|k: int| 0 <= k < s.len() ==> !s[k].is_rgba8_unorm_srgb) ==> forall|k: int|
            0 <= k < s.len() && (#[trigger] s[k]).is_srgb ==> s[preferred_surface_format(s)].is_srgb
            && preferred_surface_format(s) <= k,
        (forall|k: int| 0 <= k < s.len() ==> !s[k].is_rgba8_unorm_srgb && !s[k].is_srgb)
            ==> preferred_surface_format(s) == 0,
{
    lemma_first_index_where(s, is_rgba8_srgb_format());
    lemma_first_index_where(s, is_srgb_format());
    assert forall|k: int| 0 <= k < s.len() && (#[trigger] s[k]).is_rgba8_unorm_srgb
        implies s[preferred_surface_format(s)].is_rgba8_unorm_srgb && preferred_surface_format(s) <= k by {
        assert(is_rgba8_srgb_format()(s[k]));
    }
    assert forall|k: int| 0 <= k < s.len() && (#[trigger] s[k]).is_srgb && (forall|j: int| 0 <= j < s.len()
        ==> !s[j].is_rgba8_unorm_srgb) implies s[preferred_surface_format(s)].is_srgb
        && preferred_surface_format(s) <= k by {
        assert(is_srgb_format()(s[k]));
        assert forall|j: int| 0 <= j < s.len() implies !is_rgba8_srgb_format()(s[j]) by {}
    }
    if forall|k: int| 0 <= k < s.len() ==> !s[k].is_rgba8_unorm_srgb && !s[k].is_srgb {
        assert forall|j: int| 0 <= j < s.len() implies !is_rgba8_srgb_format()(s[j]) by {}
        assert forall|j: int| 0 <= j < s.len() implies !is_srgb_format()(s[j]) by {}
    }
}

/// The values a Win32 window handle is made of: the window handle itself,
/// and the module instance only when it is non-zero. The window handle must
/// be non-zero.
pub fn win32_window_parts(hwnd: isize, hinstance: isize) -> (r: (isize, Option<isize>))
    requires
        hwnd != 0,
    ensures
        r.0 == hwnd,
        r.1 == (if hinstance != 0 { Some(hinstance) } else { None::<isize> }),
{
    let hi = if hinstance != 0 {
        Some(hinstance)
    } else {
        None
    };
    (hwnd, hi)
}

} // verus!
