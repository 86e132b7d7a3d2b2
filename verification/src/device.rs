use vstd::prelude::*;

verus! {

/// Kind of a physical device, as the device selection ranks it.
#[derive(Clone, Copy, Debug, PartialEq, Eq, Structural)]
pub enum DeviceKind {
    DiscreteGpu,
    IntegratedGpu,
    VirtualGpu,
    Cpu,
    Other,
    /// A kind that none of the others names.
    Unknown,
}

/// Preference of a device kind: lower is better.
pub open spec fn kind_rank(k: DeviceKind) -> nat {
    match k {
        DeviceKind::DiscreteGpu => 0,
        DeviceKind::IntegratedGpu => 1,
        DeviceKind::VirtualGpu => 2,
        DeviceKind::Cpu => 3,
        DeviceKind::Other => 4,
        DeviceKind::Unknown => 5,
    }
}

/// Preference of a device kind: discrete GPUs first, then integrated,
/// virtual, CPU, other and unknown devices.
pub fn rank(k: DeviceKind) -> (r: u32)
    ensures
        r == kind_rank(k),
{
    match k {
        DeviceKind::DiscreteGpu => 0,
        DeviceKind::IntegratedGpu => 1,
        DeviceKind::VirtualGpu => 2,
        DeviceKind::Cpu => 3,
        DeviceKind::Other => 4,
        DeviceKind::Unknown => 5,
    }
}

/// A physical device offered for the work: its kind and, for each of its
/// queue families in order, whether the family can run the work (compute
/// support for the compute-only check; compute, graphics and presentation for
/// the window).
#[derive(Debug)]
pub struct DeviceCandidate {
    pub kind: DeviceKind,
    pub usable_families: Vec<bool>,
}

/// Index of the first `true` in `s`, if any.
pub open spec fn first_true(s: Seq<bool>) -> Option<nat>
    decreases s.len(),
{
    if s.len() == 0 {
        None
    } else if s[0] {
        Some(0)
    } else {
        match first_true(s.drop_first()) {
            Some(i) => Some(i + 1),
            None => None,
        }
    }
}

/// The device has a queue family that can run the work.
pub open spec fn has_usable_family(d: DeviceCandidate) -> bool {
    first_true(d.usable_families@) is Some
}

/// `(device, family)` is the choice among `ds`: the first of the devices of
/// least rank among those with a usable queue family, with its first usable
/// family.
pub open spec fn is_best_choice(ds: Seq<DeviceCandidate>, device: nat, family: nat) -> bool {
    &&& device < ds.len()
    &&& first_true(ds[device as int].usable_families@) == Some(family)
    &&& forall|j: int| 0 <= j < ds.len() && has_usable_family(#[trigger] ds[j]) ==> kind_rank(ds[j].kind)
        >= kind_rank(ds[device as int].kind)
    &&& forall|j: int| 0 <= j < device && has_usable_family(#[trigger] ds[j]) ==> kind_rank(ds[j].kind)
        > kind_rank(ds[device as int].kind)
}

proof fn lemma_first_true_found(s: Seq<bool>, i: int)
    requires
        0 <= i < s.len(),
        s[i],
        forall|j: int| 0 <= j < i ==> !s[j],
    ensures
        first_true(s) == Some(i as nat),
    decreases i,
{
    if i > 0 {
        lemma_first_true_found(s.drop_first(), i - 1);
    }
}

proof fn lemma_first_true_none(s: Seq<bool>)
    requires
        forall|j: int| 0 <= j < s.len() ==> !s[j],
    ensures
        first_true(s) is None,
    decreases s.len(),
{
    if s.len() > 0 {
        lemma_first_true_none(s.drop_first());
    }
}

/// Index of the first usable queue family.
pub fn first_usable_family(families: &Vec<bool>) -> (r: Option<usize>)
    ensures
        r matches Some(i) ==> first_true(families@) == Some(i as nat),
        r is None ==> first_true(families@) is None,
{
    let mut i: usize = 0;
    while i < families.len()
        invariant
            i <= families@.len(),
            forall|j: int| 0 <= j < i ==> !families@[j],
        decreases families@.len() - i,
    {
        if families[i] {
            proof {
                lemma_first_true_found(families@, i as int);
            }
            return Some(i);
        }
        i = i + 1;
    }
    proof {
        lemma_first_true_none(families@);
    }
    None
}

/// Chooses the device for the work: among the devices with a usable queue
/// family, the first of the most preferred kind, together with the index of
/// its first usable family. `None` when no device has a usable family.
pub fn choose_device(ds: &Vec<DeviceCandidate>) -> (r: Option<(usize, usize)>)
    ensures
        r matches Some((d, f)) ==> is_best_choice(ds@, d as nat, f as nat),
        r is None <==> forall|j: int| 0 <= j < ds@.len() ==> !has_usable_family(#[trigger] ds@[j]),
{
    let mut best: Option<(usize, usize)> = None;
    let mut best_rank: u32 = 0;
    let mut i: usize = 0;
    while i < ds.len()
        invariant
            i <= ds@.len(),
            best is None <==> forall|j: int| 0 <= j < i ==> !has_usable_family(#[trigger] ds@[j]),
            best matches Some((d, f)) ==> {
                &&& d < i
                &&& first_true(ds@[d as int].usable_families@) == Some(f as nat)
                &&& best_rank == kind_rank(ds@[d as int].kind)
                &&& forall|j: int| 0 <= j < i && has_usable_family(#[trigger] ds@[j]) ==> kind_rank(
                    ds@[j].kind,
                ) >= best_rank
                &&& forall|j: int| 0 <= j < d && has_usable_family(#[trigger] ds@[j]) ==> kind_rank(
                    ds@[j].kind,
                ) > best_rank
            },
        decreases ds@.len() - i,
    {
        let fam = first_usable_family(&ds[i].usable_families);
        match fam {
            Some(f) => {
                let r = rank(ds[i].kind);
                let better = match best {
                    None => true,
                    Some(_) => r < best_rank,
                };
                if better {
                    best = Some((i, f));
                    best_rank = r;
                }
            },
            None => {},
        }
        i = i + 1;
    }
    best
}

/// Device kinds are preferred in this order, each strictly over the next:
/// discrete GPU, integrated GPU, virtual GPU, CPU, other, unknown; so
/// different kinds never tie.
pub proof fn lemma_kind_preference(a: DeviceKind, b: DeviceKind)
    ensures
        kind_rank(DeviceKind::DiscreteGpu) < kind_rank(DeviceKind::IntegratedGpu),
        kind_rank(DeviceKind::IntegratedGpu) < kind_rank(DeviceKind::VirtualGpu),
        kind_rank(DeviceKind::VirtualGpu) < kind_rank(DeviceKind::Cpu),
        kind_rank(DeviceKind::Cpu) < kind_rank(DeviceKind::Other),
        kind_rank(DeviceKind::Other) < kind_rank(DeviceKind::Unknown),
        kind_rank(a) == kind_rank(b) ==> a == b,
{
}

} // verus!
