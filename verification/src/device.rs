use vstd::prelude::*;

verus! {

/// The kind of a physical device, as the graphics driver reports it.
#[derive(Debug, Clone, Copy, PartialEq, Eq, Structural)]
pub enum DeviceKind {
    DiscreteGpu,
    IntegratedGpu,
    VirtualGpu,
    Cpu,
    Other,
}

/// How much a device kind is preferred: lower is better.
pub open spec fn kind_rank(kind: DeviceKind) -> u32 {
    match kind {
        DeviceKind::DiscreteGpu => 0,
        DeviceKind::IntegratedGpu => 1,
        DeviceKind::VirtualGpu => 2,
        DeviceKind::Cpu => 3,
        DeviceKind::Other => 4,
    }
}

/// How much a device kind is preferred: discrete before integrated before
/// virtual before CPU before anything else; lower is better.
pub fn device_rank(kind: DeviceKind) -> (r: u32)
    ensures
        r == kind_rank(kind),
{
    match kind {
        DeviceKind::DiscreteGpu => 0,
        DeviceKind::IntegratedGpu => 1,
        DeviceKind::VirtualGpu => 2,
        DeviceKind::Cpu => 3,
        DeviceKind::Other => 4,
    }
}

/// A queue family of a device: whether it does graphics and whether it can
/// present to the window's surface.
#[derive(Debug, Clone, Copy, PartialEq, Eq, Structural)]
pub struct QueueFamily {
    pub graphics: bool,
    pub surface_support: bool,
}

/// A device on offer: its kind, whether it has the extensions the renderer
/// needs, and its queue families in the driver's order.
#[derive(Debug, Clone)]
pub struct DeviceCandidate {
    pub kind: DeviceKind,
    pub supports_extensions: bool,
    pub queue_families: Vec<QueueFamily>,
}

/// A queue family the renderer can draw and present with.
pub open spec fn usable(q: QueueFamily) -> bool {
    q.graphics && q.surface_support
}

/// `i` is the first usable queue family of `families`.
pub open spec fn first_usable(families: Seq<QueueFamily>, i: int) -> bool {
    &&& 0 <= i < families.len()
    &&& usable(families[i])
    &&& forall|j: int| 0 <= j < i ==> !usable(#[trigger] families[j])
}

/// A device the renderer can run on: it has the extensions and a usable
/// queue family.
pub open spec fn eligible(d: DeviceCandidate) -> bool {
    &&& d.supports_extensions
    &&& exists|i: int| 0 <= i < d.queue_families@.len() && usable(#[trigger] d.queue_families@[i])
}

/// The first usable queue family, if there is one.
pub fn usable_queue_family(families: &Vec<QueueFamily>) -> (r: Option<usize>)
    ensures
        match r {
            Some(i) => first_usable(families@, i as int),
            None => forall|j: int| 0 <= j < families@.len() ==> !usable(#[trigger] families@[j]),
        },
{
    let mut i: usize = 0;
    while i < families.len()
        invariant
            i <= families@.len(),
            forall|j: int| 0 <= j < i ==> !usable(#[trigger] families@[j]),
        decreases families@.len() - i,
    {
        if families[i].graphics && families[i].surface_support {
            return Some(i);
        }
        i = i + 1;
    }
    None
}

/// The device to render with and its queue family: among the devices with
/// the extensions and a usable queue family, the first of the best-ranked
/// kind, with its first usable queue family; `None` when no device qualifies.
pub fn select_physical_device(devices: &Vec<DeviceCandidate>) -> (r: Option<(usize, usize)>)
    ensures
        match r {
            Some((d, q)) => {
                &&& d < devices@.len()
                &&& eligible(devices@[d as int])
                &&& first_usable(devices@[d as int].queue_families@, q as int)
                &&& forall|j: int| 0 <= j < devices@.len() && eligible(#[trigger] devices@[j]) ==>
                    kind_rank(devices@[d as int].kind) <= kind_rank(devices@[j].kind)
                &&& forall|j: int| 0 <= j < d && eligible(#[trigger] devices@[j]) ==>
                    kind_rank(devices@[d as int].kind) < kind_rank(devices@[j].kind)
            },
            None => forall|j: int| 0 <= j < devices@.len() ==> !eligible(#[trigger] devices@[j]),
        },
{
    let mut best: Option<(usize, usize)> = None;
    let mut best_rank: u32 = 0;
    let mut i: usize = 0;
    while i < devices.len()
        invariant
            i <= devices@.len(),
            match best {
                Some((d, q)) => {
                    &&& d < i
                    &&& eligible(devices@[d as int])
                    &&& first_usable(devices@[d as int].queue_families@, q as int)
                    &&& best_rank == kind_rank(devices@[d as int].kind)
                    &&& forall|j: int| 0 <= j < i && eligible(#[trigger] devices@[j]) ==>
                        best_rank <= kind_rank(devices@[j].kind)
                    &&& forall|j: int| 0 <= j < d && eligible(#[trigger] devices@[j]) ==>
                        best_rank < kind_rank(devices@[j].kind)
                },
                None => forall|j: int| 0 <= j < i ==> !eligible(#[trigger] devices@[j]),
            },
        decreases devices@.len() - i,
    {
        let device = &devices[i];
        if device.supports_extensions {
            match usable_queue_family(&device.queue_families) {
                Some(q) => {
                    let rank = device_rank(device.kind);
                    let better = match best {
                        None => true,
                        Some(_) => rank < best_rank,
                    };
                    if better {
                        best = Some((i, q));
                        best_rank = rank;
                    }
                },
                None => {},
            }
        }
        i = i + 1;
    }
    best
}

} // verus!
