//! Choosing the physical device and queue family to render with.
//!
//! The caller queries the Vulkan driver and describes each physical device
//! with plain facts (`DeviceCandidate`); the choice itself is made here.

use vstd::prelude::*;

verus! {

/// The kind of a physical device, as reported by the driver.
#[derive(Clone, Copy, PartialEq, Eq, Debug, Structural)]
pub enum DeviceKind {
    DiscreteGpu,
    IntegratedGpu,
    VirtualGpu,
    Cpu,
    /// Any other kind, including kinds added to Vulkan later.
    Other,
}

/// Preference rank of a device kind: lower is preferred.
pub open spec fn kind_rank(kind: DeviceKind) -> u32 {
    match kind {
        DeviceKind::DiscreteGpu => 0,
        DeviceKind::IntegratedGpu => 1,
        DeviceKind::VirtualGpu => 2,
        DeviceKind::Cpu => 3,
        DeviceKind::Other => 4,
    }
}

/// What the selection needs to know of one queue family.
#[derive(Clone, Copy, Debug)]
pub struct QueueFamilyInfo {
    /// The family's queue flags contain `GRAPHICS`.
    pub graphics: bool,
    /// Whether the family can present to the window surface; `None` when
    /// the driver could not answer.
    pub surface_support: Option<bool>,
}

/// What the selection needs to know of one physical device.
#[derive(Clone, Debug)]
pub struct DeviceCandidate {
    /// The device supports every required device extension.
    pub supports_extensions: bool,
    pub kind: DeviceKind,
    /// The device's queue families, in the driver's order.
    pub queue_families: Vec<QueueFamilyInfo>,
}

/// A family qualifies for rendering to the window: it has graphics queues
/// and the driver confirmed that it can present to the surface (an
/// unanswered query counts as no).
pub open spec fn presents_graphics(f: QueueFamilyInfo) -> bool {
    f.graphics && f.surface_support == Some(true)
}

/// `i` is the first family of `fams` with graphics queues.
pub open spec fn is_first_graphics(fams: Seq<QueueFamilyInfo>, i: int) -> bool {
    &&& 0 <= i < fams.len()
    &&& fams[i].graphics
    &&& forall|j: int| 0 <= j < i ==> !(#[trigger] fams[j]).graphics
}

/// `i` is the first family of `fams` that qualifies for rendering to the window.
pub open spec fn is_first_presenting(fams: Seq<QueueFamilyInfo>, i: int) -> bool {
    &&& 0 <= i < fams.len()
    &&& presents_graphics(fams[i])
    &&& forall|j: int| 0 <= j < i ==> !presents_graphics(#[trigger] fams[j])
}

pub open spec fn has_presenting_family(fams: Seq<QueueFamilyInfo>) -> bool {
    exists|i: int| 0 <= i < fams.len() && presents_graphics(#[trigger] fams[i])
}

/// A device may be chosen: it has the required extensions and a family
/// that can render to the window.
pub open spec fn suitable(c: DeviceCandidate) -> bool {
    c.supports_extensions && has_presenting_family(c.queue_families@)
}

pub open spec fn any_suitable(cs: Seq<DeviceCandidate>) -> bool {
    exists|i: int| 0 <= i < cs.len() && suitable(#[trigger] cs[i])
}

/// `d` is the device the selection picks: a suitable device whose kind is
/// preferred at least as much as that of every other suitable device, and
/// the first such one.
pub open spec fn is_selected(cs: Seq<DeviceCandidate>, d: int) -> bool {
    &&& 0 <= d < cs.len()
    &&& suitable(cs[d])
    &&& forall|j: int|
        0 <= j < cs.len() && suitable(#[trigger] cs[j]) ==> kind_rank(cs[d].kind) <= kind_rank(
            cs[j].kind,
        )
    &&& forall|j: int|
        0 <= j < d && suitable(#[trigger] cs[j]) ==> kind_rank(cs[d].kind) < kind_rank(cs[j].kind)
}

/// Preference rank of a device kind: discrete GPUs first, then integrated
/// GPUs, virtual GPUs, CPUs, and any other kind last.
pub fn device_kind_rank(kind: DeviceKind) -> (r: u32)
    ensures
        r == kind_rank(kind),
{
    match kind {
        DeviceKind::DiscreteGpu => 0,
        DeviceKind::IntegratedGpu => 1,
        DeviceKind::VirtualGpu => 2,
        DeviceKind::Cpu => 3,
        DeviceKind::Other => 4,
    }
}

/// Index of the first queue family with graphics queues, if any.
pub fn first_graphics_queue_family(families: &[QueueFamilyInfo]) -> (r: Option<usize>)
    ensures
        match r {
            Some(i) => is_first_graphics(families@, i as int),
            None => forall|j: int| 0 <= j < families@.len() ==> !(#[trigger] families@[j]).graphics,
        },
{
    let mut i: usize = 0;
    while i < families.len()
        invariant
            0 <= i <= families@.len(),
            forall|j: int| 0 <= j < i ==> !(#[trigger] families@[j]).graphics,
        decreases families@.len() - i,
    {
        if families[i].graphics {
            return Some(i);
        }
        i = i + 1;
    }
    None
}

/// Whether a queue family can render to the window.
pub fn family_presents_graphics(family: &QueueFamilyInfo) -> (b: bool)
    ensures
        b == presents_graphics(*family),
        b == (family.graphics && family.surface_support == Some(true)),
{
    family.graphics && match family.surface_support {
        Some(s) => s,
        None => false,
    }
}

/// Index of the first queue family that can render to the window, if any.
pub fn first_presenting_queue_family(families: &[QueueFamilyInfo]) -> (r: Option<usize>)
    ensures
        match r {
            Some(i) => is_first_presenting(families@, i as int),
            None => !has_presenting_family(families@),
        },
        match r {
            Some(i) => {
                &&& i < families@.len()
                &&& families@[i as int].graphics
                &&& families@[i as int].surface_support == Some(true)
                &&& forall|j: int|
                    0 <= j < i ==> !((#[trigger] families@[j]).graphics
                        && families@[j].surface_support == Some(true))
            },
            None => forall|j: int|
                0 <= j < families@.len() ==> !((#[trigger] families@[j]).graphics
                    && families@[j].surface_support == Some(true)),
        },
{
    let mut i: usize = 0;
    while i < families.len()
        invariant
            0 <= i <= families@.len(),
            forall|j: int| 0 <= j < i ==> !presents_graphics(#[trigger] families@[j]),
        decreases families@.len() - i,
    {
        if family_presents_graphics(&families[i]) {
            return Some(i);
        }
        i = i + 1;
    }
    None
}

/// The preferred suitable device and its first family that can render to
/// the window; `None` when no device is suitable.
fn best_candidate(candidates: &[DeviceCandidate]) -> (r: Option<(usize, usize)>)
    ensures
        r.is_none() <==> !any_suitable(candidates@),
        match r {
            Some((d, q)) => {
                &&& is_selected(candidates@, d as int)
                &&& is_first_presenting(candidates@[d as int].queue_families@, q as int)
            },
            None => true,
        },
{
    let ghost cs = candidates@;
    let mut best: Option<(usize, u32, usize)> = None;
    let mut i: usize = 0;
    while i < candidates.len()
        invariant
            cs == candidates@,
            0 <= i <= cs.len(),
            match best {
                None => forall|j: int| 0 <= j < i ==> !suitable(#[trigger] cs[j]),
                Some((d, rank, q)) => {
                    &&& d < i
                    &&& suitable(cs[d as int])
                    &&& rank == kind_rank(cs[d as int].kind)
                    &&& is_first_presenting(cs[d as int].queue_families@, q as int)
                    &&& forall|j: int|
                        0 <= j < i && suitable(#[trigger] cs[j]) ==> rank <= kind_rank(cs[j].kind)
                    &&& forall|j: int|
                        0 <= j < d && suitable(#[trigger] cs[j]) ==> rank < kind_rank(cs[j].kind)
                },
            },
        decreases cs.len() - i,
    {
        let c = &candidates[i];
        if c.supports_extensions {
            match first_presenting_queue_family(c.queue_families.as_slice()) {
                Some(q) => {
                    let rank = device_kind_rank(c.kind);
                    let better = match best {
                        None => true,
                        Some((_, best_rank, _)) => rank < best_rank,
                    };
                    if better {
                        best = Some((i, rank, q));
                    }
                },
                None => {},
            }
        }
        i = i + 1;
    }
    match best {
        Some((d, _, q)) => Some((d, q)),
        None => None,
    }
}

/// Whether some device can be chosen.
pub fn has_suitable_device(candidates: &[DeviceCandidate]) -> (b: bool)
    ensures
        b == any_suitable(candidates@),
{
    best_candidate(candidates).is_some()
}

/// Chooses the device to render with and the queue family to use on it.
///
/// Devices that lack a required extension or have no queue family that both
/// has graphics queues and can present to the surface are passed over.
/// Among the rest, the most preferred kind wins (see `device_kind_rank`),
/// the first in the driver's order among equals. The family is the first
/// suitable family of the chosen device. Returns `(device index, family
/// index)`.
pub fn select_physical_device(candidates: &[DeviceCandidate]) -> (r: (usize, usize))
    requires
        any_suitable(candidates@),
    ensures
        is_selected(candidates@, r.0 as int),
        is_first_presenting(candidates@[r.0 as int].queue_families@, r.1 as int),
        r.0 < candidates@.len(),
        candidates@[r.0 as int].supports_extensions,
        r.1 < candidates@[r.0 as int].queue_families@.len(),
        candidates@[r.0 as int].queue_families@[r.1 as int].graphics,
        candidates@[r.0 as int].queue_families@[r.1 as int].surface_support == Some(true),
        forall|j: int|
            0 <= j < r.1 ==> !((#[trigger] candidates@[r.0 as int].queue_families@[j]).graphics
                && candidates@[r.0 as int].queue_families@[j].surface_support == Some(true)),
{
    match best_candidate(candidates) {
        Some(pair) => pair,
        None => {
            proof {
                assert(false);
            }
            (0, 0)
        },
    }
}

/// The selection is a function of the candidates: at most one device index
/// meets the selection's conditions.
pub proof fn selection_is_unique(cs: Seq<DeviceCandidate>, d1: int, d2: int)
    requires
        is_selected(cs, d1),
        is_selected(cs, d2),
    ensures
        d1 == d2,
{
    if d1 < d2 {
        assert(suitable(cs[d1]));
    } else if d2 < d1 {
        assert(suitable(cs[d2]));
    }
}

/// A suitable discrete GPU, when there is one, is always preferred: the
/// selected device is then a discrete GPU.
pub proof fn discrete_gpu_preferred(cs: Seq<DeviceCandidate>, g: int, d: int)
    requires
        0 <= g < cs.len(),
        suitable(cs[g]),
        cs[g].kind == DeviceKind::DiscreteGpu,
        is_selected(cs, d),
    ensures
        cs[d].kind == DeviceKind::DiscreteGpu,
{
    assert(kind_rank(cs[d].kind) <= kind_rank(cs[g].kind));
}

/// A queue family qualifies for rendering to the window exactly when it has
/// graphics queues and the driver answered that it can present to the
/// surface; a family without graphics queues, or whose support query failed
/// or was answered no, never qualifies.
pub proof fn qualifying_family_has_graphics_and_support(f: QueueFamilyInfo)
    ensures
        presents_graphics(f) <==> (f.graphics && f.surface_support == Some(true)),
        !f.graphics ==> !presents_graphics(f),
        f.surface_support != Some(true) ==> !presents_graphics(f),
{
}

/// A device is suitable exactly when it has the required extensions and
/// some queue family with graphics queues and confirmed surface support;
/// the family picked on a selected device is such a family, and every
/// family before it lacks graphics queues or confirmed support.
pub proof fn selected_family_renders_and_presents(cs: Seq<DeviceCandidate>, d: int, q: int)
    requires
        is_selected(cs, d),
        is_first_presenting(cs[d].queue_families@, q),
    ensures
        cs[d].supports_extensions,
        0 <= q < cs[d].queue_families@.len(),
        cs[d].queue_families@[q].graphics,
        cs[d].queue_families@[q].surface_support == Some(true),
        forall|j: int|
            0 <= j < q ==> !((#[trigger] cs[d].queue_families@[j]).graphics
                && cs[d].queue_families@[j].surface_support == Some(true)),
{
}

/// Suitability written out: extensions plus a family with graphics queues and
/// confirmed surface support.
pub proof fn suitable_written_out(c: DeviceCandidate)
    ensures
        suitable(c) <==> (c.supports_extensions && exists|i: int|
            0 <= i < c.queue_families@.len() && (#[trigger] c.queue_families@[i]).graphics
                && c.queue_families@[i].surface_support == Some(true)),
{
    if c.supports_extensions && exists|i: int|
        0 <= i < c.queue_families@.len() && (#[trigger] c.queue_families@[i]).graphics
            && c.queue_families@[i].surface_support == Some(true) {
        let i = choose|i: int|
            0 <= i < c.queue_families@.len() && (#[trigger] c.queue_families@[i]).graphics
                && c.queue_families@[i].surface_support == Some(true);
        assert(presents_graphics(c.queue_families@[i]));
    }
}

/// The selected device's kind is preferred at least as much as that of every
/// suitable device (discrete GPU, then integrated, virtual, CPU, any other),
/// and every suitable device before it is of a strictly less preferred kind.
pub proof fn selection_follows_kind_preference(cs: Seq<DeviceCandidate>, d: int, j: int)
    requires
        is_selected(cs, d),
        0 <= j < cs.len(),
        suitable(cs[j]),
    ensures
        cs[j].kind == DeviceKind::DiscreteGpu ==> cs[d].kind == DeviceKind::DiscreteGpu,
        cs[j].kind == DeviceKind::IntegratedGpu ==> (cs[d].kind == DeviceKind::DiscreteGpu
            || cs[d].kind == DeviceKind::IntegratedGpu),
        cs[j].kind == DeviceKind::VirtualGpu ==> (cs[d].kind != DeviceKind::Cpu && cs[d].kind
            != DeviceKind::Other),
        cs[j].kind == DeviceKind::Cpu ==> cs[d].kind != DeviceKind::Other,
        j < d ==> cs[j].kind != cs[d].kind,
        j < d ==> cs[j].kind != DeviceKind::DiscreteGpu,
        j < d && cs[d].kind != DeviceKind::DiscreteGpu ==> cs[j].kind != DeviceKind::IntegratedGpu,
        j < d && cs[d].kind != DeviceKind::DiscreteGpu && cs[d].kind != DeviceKind::IntegratedGpu
            ==> cs[j].kind != DeviceKind::VirtualGpu,
        j < d && cs[d].kind == DeviceKind::Other ==> false,
{
}

} // verus!
