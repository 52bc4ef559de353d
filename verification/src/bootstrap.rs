//! Choice of the accelerator and queue family the renderer runs on.

use vstd::prelude::*;
use vulkano::device::DeviceExtensions;

verus! {

/// `vulkano::device::DeviceExtensions`: a list of device extensions, each
/// switched on or off. Nothing of its inside is known here; what the list
/// holds is spoken of through `enabled_extensions`.
#[verifier::external_type_specification]
#[verifier::external_body]
pub struct ExDeviceExtensions(DeviceExtensions);

/// The names of the extensions that are switched on in `extensions`, such as
/// `VK_KHR_swapchain`. It has no definition here: it stands for what a
/// `DeviceExtensions` value holds, and only what is assumed of the methods of
/// `DeviceExtensions` below says anything of it.
pub uninterp spec fn enabled_extensions(extensions: DeviceExtensions) -> Set<Seq<char>>;

/// Assumed of `vulkano::device::DeviceExtensions::is_superset_of`, not proved:
/// it tells whether every extension that is switched on in `other` is
/// switched on in `this` as well.
pub assume_specification[ DeviceExtensions::is_superset_of ](
    this: &DeviceExtensions,
    other: &DeviceExtensions,
) -> (superset: bool)
    ensures
        superset == enabled_extensions(*other).subset_of(enabled_extensions(*this)),
;

/// Assumed of `vulkano::device::DeviceExtensions::union`, not proved: in its
/// result exactly those extensions are switched on that are switched on in
/// `this` or in `other`.
pub assume_specification[ DeviceExtensions::union ](
    this: &DeviceExtensions,
    other: &DeviceExtensions,
) -> (both: DeviceExtensions)
    ensures
        enabled_extensions(both) == enabled_extensions(*this).union(enabled_extensions(*other)),
;

/// The closed set of accelerator classes a platform can report.
#[derive(Clone, Copy, Debug, PartialEq, Eq, Structural)]
pub enum DeviceKind {
    Discrete,
    Integrated,
    Virtual,
    Cpu,
    Other,
}

impl DeviceKind {
    /// Position in the fixed order of preference; a lower rank is preferred.
    pub open spec fn spec_rank(self) -> u8 {
        match self {
            DeviceKind::Discrete => 0,
            DeviceKind::Integrated => 1,
            DeviceKind::Virtual => 2,
            DeviceKind::Cpu => 3,
            DeviceKind::Other => 4,
        }
    }

    /// Position in the fixed order of preference; a lower rank is preferred.
    #[verifier::when_used_as_spec(spec_rank)]
    pub fn rank(self) -> (rank: u8)
        ensures
            rank == self.spec_rank(),
    {
        match self {
            DeviceKind::Discrete => 0,
            DeviceKind::Integrated => 1,
            DeviceKind::Virtual => 2,
            DeviceKind::Cpu => 3,
            DeviceKind::Other => 4,
        }
    }
}

/// What a family of queues can do.
#[derive(Clone, Copy, Debug, PartialEq, Eq, Structural)]
pub struct QueueFamily {
    /// Its queues execute graphics operations.
    pub supports_graphics: bool,
    /// Its queues can present to the surface of the window.
    pub supports_present: bool,
}

impl QueueFamily {
    /// The renderer can run on a queue of this family.
    pub open spec fn usable(self) -> bool {
        self.supports_graphics && self.supports_present
    }
}

/// An accelerator, as the platform lists it.
#[derive(Debug)]
pub struct PhysicalDeviceInfo {
    pub kind: DeviceKind,
    pub supported_extensions: DeviceExtensions,
    /// The extensions that must be switched on whenever a logical device is
    /// created on this accelerator.
    pub required_extensions: DeviceExtensions,
    /// Its queue families, in the order the accelerator lists them.
    pub queue_families: Vec<QueueFamily>,
}

/// The accelerator and the queue family that were chosen, each by its
/// position in the list it came from.
#[derive(Clone, Copy, Debug, PartialEq, Eq, Structural)]
pub struct Selection {
    pub device: usize,
    pub queue_family: usize,
}

/// `index` is the position of the first usable family in `families`.
pub open spec fn is_first_usable(families: Seq<QueueFamily>, index: int) -> bool {
    &&& 0 <= index < families.len()
    &&& families[index].usable()
    &&& forall|j: int| 0 <= j < index ==> !(#[trigger] families[j]).usable()
}

/// There is a usable family in `families`.
pub open spec fn has_usable_family(families: Seq<QueueFamily>) -> bool {
    exists|i: int| 0 <= i < families.len() && (#[trigger] families[i]).usable()
}

impl PhysicalDeviceInfo {
    /// The renderer can run on this accelerator: it supports every extension
    /// of `required`, and a queue family of it is usable.
    pub open spec fn suitable(self, required: DeviceExtensions) -> bool {
        &&& enabled_extensions(required).subset_of(enabled_extensions(self.supported_extensions))
        &&& has_usable_family(self.queue_families@)
    }

    /// The extensions to switch on when the logical device is created on this
    /// accelerator: those it requires itself, and those of `wanted`.
    pub fn extensions_to_enable(&self, wanted: &DeviceExtensions) -> (enabled: DeviceExtensions)
        ensures
            enabled_extensions(enabled) == enabled_extensions(self.required_extensions).union(
                enabled_extensions(*wanted),
            ),
            enabled_extensions(self.required_extensions).subset_of(enabled_extensions(enabled)),
            enabled_extensions(*wanted).subset_of(enabled_extensions(enabled)),
    {
        self.required_extensions.union(wanted)
    }
}

/// `index` is the position of the accelerator to choose from `devices`: it is
/// suitable, no suitable one has a lower rank, and of those with its rank it
/// comes first.
pub open spec fn is_preferred(
    devices: Seq<PhysicalDeviceInfo>,
    required: DeviceExtensions,
    index: int,
) -> bool {
    &&& 0 <= index < devices.len()
    &&& devices[index].suitable(required)
    &&& forall|j: int|
        0 <= j < devices.len() && (#[trigger] devices[j]).suitable(required)
            ==> devices[index].kind.rank() <= devices[j].kind.rank()
    &&& forall|j: int|
        0 <= j < index && (#[trigger] devices[j]).suitable(required) ==> devices[index].kind.rank()
            < devices[j].kind.rank()
}

/// At most one position is that of the accelerator to choose.
pub proof fn lemma_preferred_is_unique(
    devices: Seq<PhysicalDeviceInfo>,
    required: DeviceExtensions,
    first: int,
    second: int,
)
    requires
        is_preferred(devices, required, first),
        is_preferred(devices, required, second),
    ensures
        first == second,
{
}

/// Where a suitable accelerator of the discrete kind is listed, the one to
/// choose is of the discrete kind.
pub proof fn lemma_discrete_is_preferred(
    devices: Seq<PhysicalDeviceInfo>,
    required: DeviceExtensions,
    index: int,
    discrete: int,
)
    requires
        is_preferred(devices, required, index),
        0 <= discrete < devices.len(),
        devices[discrete].suitable(required),
        devices[discrete].kind is Discrete,
    ensures
        devices[index].kind is Discrete,
{
}

/// Finds the first queue family that executes graphics operations and can
/// present to the surface.
pub fn select_queue_family(families: &Vec<QueueFamily>) -> (found: Option<usize>)
    ensures
        found is Some <==> has_usable_family(families@),
        found matches Some(index) ==> is_first_usable(families@, index as int),
{
    let mut i: usize = 0;
    while i < families.len()
        invariant
            i <= families@.len(),
            forall|j: int| 0 <= j < i ==> !(#[trigger] families@[j]).usable(),
        decreases families@.len() - i,
    {
        if families[i].supports_graphics && families[i].supports_present {
            return Some(i);
        }
        i += 1;
    }
    None
}

/// Chooses the accelerator to run on, with the queue family to submit to:
/// among the accelerators that support the extensions of `required` and have
/// a usable queue family, the first of the most preferred kind; and of it,
/// the first usable family. There is none to choose when no accelerator is
/// suitable.
pub fn select_device(devices: &Vec<PhysicalDeviceInfo>, required: &DeviceExtensions) -> (selection:
    Option<Selection>)
    ensures
        selection matches Some(chosen) ==> {
            &&& is_preferred(devices@, *required, chosen.device as int)
            &&& is_first_usable(
                devices@[chosen.device as int].queue_families@,
                chosen.queue_family as int,
            )
        },
        selection is None <==> forall|i: int|
            0 <= i < devices@.len() ==> !(#[trigger] devices@[i]).suitable(*required),
        forall|i: int|
            0 <= i < devices@.len() && (#[trigger] devices@[i]).suitable(*required)
                && devices@[i].kind is Discrete ==> selection is Some
                && devices@[selection.unwrap().device as int].kind is Discrete,
{
    let mut best: Option<Selection> = None;
    let mut best_rank: u8 = 0;
    let mut i: usize = 0;
    while i < devices.len()
        invariant
            i <= devices@.len(),
            best is None ==> forall|j: int|
                0 <= j < i ==> !(#[trigger] devices@[j]).suitable(*required),
            best matches Some(chosen) ==> {
                &&& chosen.device < i
                &&& best_rank == devices@[chosen.device as int].kind.rank()
                &&& is_preferred(devices@.take(i as int), *required, chosen.device as int)
                &&& is_first_usable(
                    devices@[chosen.device as int].queue_families@,
                    chosen.queue_family as int,
                )
            },
        decreases devices@.len() - i,
    {
        let device = &devices[i];
        if device.supported_extensions.is_superset_of(required) {
            match select_queue_family(&device.queue_families) {
                Some(queue_family) => {
                    let rank = device.kind.rank();
                    if best.is_none() || rank < best_rank {
                        best = Some(Selection { device: i, queue_family });
                        best_rank = rank;
                    }
                },
                None => {},
            }
        }
        i += 1;
    }
    assert(devices@.take(i as int) == devices@);
    best
}

} // verus!
