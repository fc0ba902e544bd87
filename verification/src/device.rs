//! Choosing the adapter to render with, and what is asked of it.

use vstd::prelude::*;
use vulkano::device::DeviceExtensions;
use crate::graphic_engine::Graphicengine;
use crate::vulkan::{extension_names, khr_swapchain, swapchain_extensions};

verus! {

/// The class that an adapter reports for itself.
#[derive(Clone, Copy, Debug, PartialEq, Eq, Structural)]
pub enum DeviceType {
    DiscreteGpu,
    IntegratedGpu,
    VirtualGpu,
    Cpu,
    Other,
}

/// What one queue family of an adapter can do.
#[derive(Clone, Copy, Debug, PartialEq, Eq, Structural)]
pub struct QueueFamily {
    /// The family takes graphics commands.
    pub graphics: bool,
    /// Whether the family can present to the surface that the engine draws
    /// on; `None` where the adapter failed to say.
    pub presents: Option<bool>,
}

/// A physical adapter, as far as the choice between adapters reads it.
#[derive(Debug)]
pub struct Adapter {
    pub device_type: DeviceType,
    pub supported_extensions: DeviceExtensions,
    /// The queue families, in the order of their indices.
    pub queue_families: Vec<QueueFamily>,
}

/// The adapter that was chosen, by its place in the list, and the queue
/// family to draw and present with.
#[derive(Clone, Copy, Debug, PartialEq, Eq, Structural)]
pub struct DeviceChoice {
    pub adapter_index: usize,
    pub queue_family_index: u32,
}

/// No adapter has the required extensions together with a queue family
/// that both draws and presents.
#[derive(Clone, Copy, Debug, PartialEq, Eq, Structural)]
pub struct NoSuitableDeviceError;

/// What to ask of the chosen adapter: one logical device with the given
/// extensions enabled and one queue from each listed family.
#[derive(Debug)]
pub struct DeviceRequest {
    pub enabled_extensions: DeviceExtensions,
    pub queue_family_indices: Vec<u32>,
}

/// The preference among device types: a lower rank is preferred.
pub open spec fn rank(t: DeviceType) -> nat {
    match t {
        DeviceType::DiscreteGpu => 0,
        DeviceType::IntegratedGpu => 1,
        DeviceType::VirtualGpu => 2,
        DeviceType::Cpu => 3,
        DeviceType::Other => 4,
    }
}

/// A family that both draws and presents. One whose adapter failed to say
/// whether it presents counts as one that does not.
pub open spec fn family_usable(family: QueueFamily) -> bool {
    family.graphics && family.presents == Some(true)
}

/// `index` is the first usable family of `families`. A family index is a
/// `u32`: a family beyond that range cannot be named and is not looked at.
pub open spec fn is_first_usable_family(families: Seq<QueueFamily>, index: int) -> bool {
    &&& 0 <= index < families.len()
    &&& index <= u32::MAX
    &&& family_usable(families[index])
    &&& forall|k: int| 0 <= k < index ==> !family_usable(#[trigger] families[k])
}

/// Some family of `families` is usable.
pub open spec fn has_usable_family(families: Seq<QueueFamily>) -> bool {
    exists|k: int| is_first_usable_family(families, k)
}

/// The adapter supports every extension named in `required` and has a
/// usable family.
pub open spec fn adapter_suitable(adapter: Adapter, required: Set<Seq<char>>) -> bool {
    &&& required.subset_of(extension_names(adapter.supported_extensions))
    &&& has_usable_family(adapter.queue_families@)
}

/// The extensions that the engine cannot do without: the swapchain
/// extension, and no other.
pub open spec fn required_extensions() -> Set<Seq<char>> {
    Set::<Seq<char>>::empty().insert(khr_swapchain())
}

/// `choice` is the selection among the first `n` adapters: a suitable
/// adapter with its first usable family, of the least rank among the
/// suitable ones, and the earliest of that rank.
pub open spec fn is_selection_among(
    adapters: Seq<Adapter>,
    required: Set<Seq<char>>,
    n: int,
    choice: DeviceChoice,
) -> bool {
    let chosen = adapters[choice.adapter_index as int];
    &&& 0 <= choice.adapter_index < n <= adapters.len()
    &&& adapter_suitable(chosen, required)
    &&& is_first_usable_family(chosen.queue_families@, choice.queue_family_index as int)
    &&& forall|j: int|
        0 <= j < n && adapter_suitable(#[trigger] adapters[j], required) ==> {
            &&& rank(chosen.device_type) <= rank(adapters[j].device_type)
            &&& j < choice.adapter_index ==> rank(chosen.device_type) < rank(
                adapters[j].device_type,
            )
        }
}

/// `choice` is the selection among all of `adapters`.
pub open spec fn is_selection(
    adapters: Seq<Adapter>,
    required: Set<Seq<char>>,
    choice: DeviceChoice,
) -> bool {
    is_selection_among(adapters, required, adapters.len() as int, choice)
}

/// No adapter of `adapters` is suitable.
pub open spec fn none_suitable(adapters: Seq<Adapter>, required: Set<Seq<char>>) -> bool {
    forall|j: int| 0 <= j < adapters.len() ==> !adapter_suitable(#[trigger] adapters[j], required)
}

/// The rank of a device type as a number.
pub fn device_rank(t: DeviceType) -> (r: u8)
    ensures
        r == rank(t),
{
    match t {
        DeviceType::DiscreteGpu => 0,
        DeviceType::IntegratedGpu => 1,
        DeviceType::VirtualGpu => 2,
        DeviceType::Cpu => 3,
        DeviceType::Other => 4,
    }
}

/// The index of the first family that both draws and presents.
pub fn first_usable_family(families: &Vec<QueueFamily>) -> (r: Option<u32>)
    ensures
        match r {
            Some(index) => is_first_usable_family(families@, index as int),
            None => !has_usable_family(families@),
        },
{
    let mut i: usize = 0;
    while i < families.len() && i <= u32::MAX as usize
        invariant
            i <= families.len(),
            forall|k: int| 0 <= k < i ==> !family_usable(#[trigger] families@[k]),
        decreases families.len() - i,
    {
        if families[i].graphics {
            if let Some(true) = families[i].presents {
                return Some(i as u32);
            }
        }
        i += 1;
    }
    None
}

impl Graphicengine {
    /// Chooses among `adapters` one that supports `device_extensions` and
    /// has a family that draws and presents: the most preferred by device
    /// type, the first of them where several are equally preferred.
    pub fn get_best_compatible_physical_device(
        adapters: &Vec<Adapter>,
        device_extensions: &DeviceExtensions,
    ) -> (r: Result<DeviceChoice, NoSuitableDeviceError>)
        ensures
            r is Err <==> none_suitable(adapters@, extension_names(*device_extensions)),
            r is Ok ==> is_selection(adapters@, extension_names(*device_extensions), r->Ok_0),
    {
        let mut best: Option<DeviceChoice> = None;
        let mut best_rank: u8 = 0;
        let mut i: usize = 0;
        while i < adapters.len()
            invariant
                i <= adapters.len(),
                match best {
                    Some(choice) => {
                        &&& is_selection_among(
                            adapters@,
                            extension_names(*device_extensions),
                            i as int,
                            choice,
                        )
                        &&& best_rank == rank(adapters@[choice.adapter_index as int].device_type)
                    },
                    None => forall|j: int|
                        0 <= j < i ==> !adapter_suitable(
                            #[trigger] adapters@[j],
                            extension_names(*device_extensions),
                        ),
                },
            decreases adapters.len() - i,
        {
            let adapter = &adapters[i];
            if adapter.supported_extensions.contains(device_extensions) {
                if let Some(family) = first_usable_family(&adapter.queue_families) {
                    let r = device_rank(adapter.device_type);
                    if best.is_none() || r < best_rank {
                        best = Some(DeviceChoice { adapter_index: i, queue_family_index: family });
                        best_rank = r;
                    }
                }
            }
            i += 1;
        }
        match best {
            Some(choice) => Ok(choice),
            None => Err(NoSuitableDeviceError),
        }
    }

    /// The extension set that the engine asks of its device.
    pub fn required_extensions() -> (r: DeviceExtensions)
        ensures
            extension_names(r) == required_extensions(),
    {
        swapchain_extensions()
    }

    /// Chooses the adapter for the engine and says what to ask of it: the
    /// selection among `adapters` for the engine's own extensions, and the
    /// request for a device with these extensions and one queue of the
    /// selected family.
    pub fn find_device(adapters: &Vec<Adapter>) -> (r: Result<
        (DeviceChoice, DeviceRequest),
        NoSuitableDeviceError,
    >)
        ensures
            r is Err <==> none_suitable(adapters@, required_extensions()),
            r is Ok ==> {
                let (choice, request) = r->Ok_0;
                &&& is_selection(adapters@, required_extensions(), choice)
                &&& extension_names(request.enabled_extensions) == required_extensions()
                &&& request.queue_family_indices@ == seq![choice.queue_family_index]
            },
    {
        let device_extensions = Graphicengine::required_extensions();
        match Graphicengine::get_best_compatible_physical_device(adapters, &device_extensions) {
            Ok(choice) => {
                let request = Graphicengine::get_device(
                    choice.queue_family_index,
                    device_extensions,
                );
                Ok((choice, request))
            },
            Err(e) => Err(e),
        }
    }

    /// The request for the logical device: the extensions enabled, and one
    /// queue, from the chosen family.
    pub fn get_device(queue_family_index: u32, device_extensions: DeviceExtensions) -> (r:
        DeviceRequest)
        ensures
            r.enabled_extensions == device_extensions,
            r.queue_family_indices@ == seq![queue_family_index],
    {
        let mut queue_family_indices: Vec<u32> = Vec::new();
        queue_family_indices.push(queue_family_index);
        DeviceRequest { enabled_extensions: device_extensions, queue_family_indices }
    }
}

/// The selection is determined by the adapters and the required
/// extensions: there are no two of them.
pub proof fn lemma_selection_is_unique(
    adapters: Seq<Adapter>,
    required: Set<Seq<char>>,
    a: DeviceChoice,
    b: DeviceChoice,
)
    requires
        is_selection(adapters, required, a),
        is_selection(adapters, required, b),
    ensures
        a == b,
{
}

/// No suitable adapter is preferred to the selected one: the selected
/// adapter has the least rank among the suitable ones.
pub proof fn lemma_selection_is_most_preferred(
    adapters: Seq<Adapter>,
    required: Set<Seq<char>>,
    choice: DeviceChoice,
    other: int,
)
    requires
        is_selection(adapters, required, choice),
        0 <= other < adapters.len(),
        adapter_suitable(adapters[other], required),
    ensures
        rank(adapters[choice.adapter_index as int].device_type) <= rank(
            adapters[other].device_type,
        ),
{
}

/// Of two suitable adapters, one discrete and one integrated, the discrete
/// one is selected, in whichever order they are listed.
pub proof fn lemma_discrete_preferred_to_integrated(
    adapters: Seq<Adapter>,
    required: Set<Seq<char>>,
    choice: DeviceChoice,
)
    requires
        adapters.len() == 2,
        adapter_suitable(adapters[0], required),
        adapter_suitable(adapters[1], required),
        adapters[0].device_type == DeviceType::DiscreteGpu && adapters[1].device_type
            == DeviceType::IntegratedGpu || adapters[0].device_type == DeviceType::IntegratedGpu
            && adapters[1].device_type == DeviceType::DiscreteGpu,
        is_selection(adapters, required, choice),
    ensures
        adapters[choice.adapter_index as int].device_type == DeviceType::DiscreteGpu,
{
    if adapters[0].device_type == DeviceType::DiscreteGpu {
        lemma_selection_is_most_preferred(adapters, required, choice, 0);
    } else {
        lemma_selection_is_most_preferred(adapters, required, choice, 1);
    }
}

} // verus!
