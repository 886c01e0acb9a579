//! The device context: the choice of an adapter and of its queue family, and
//! what the adapter tells of its memory and its limits.

use crate::error::SetupError;
use crate::memory::MemoryType;
use vstd::prelude::*;

verus! {

/// A family of command queues of an adapter.
#[derive(Clone, Copy, Debug, PartialEq, Eq, Structural)]
pub struct QueueFamily {
    /// Whether the queues take graphics commands.
    pub graphics: bool,
    /// Whether the queues can present to the target surface.
    pub presentable: bool,
    /// How many queues the family has.
    pub max_queues: usize,
}

/// The limits of a device, as far as they are used.
#[derive(Clone, Copy, Debug, PartialEq, Eq, Structural)]
pub struct Limits {
    /// The alignment that the pitch of a buffer copy must have.
    pub min_buffer_copy_pitch_alignment: u64,
}

/// One physical device.
#[derive(Debug, PartialEq, Eq)]
pub struct Adapter {
    pub queue_families: Vec<QueueFamily>,
    pub memory_types: Vec<MemoryType>,
    pub limits: Limits,
}

/// An adapter as the contracts speak of it.
pub struct AdapterModel {
    pub queue_families: Seq<QueueFamily>,
    pub memory_types: Seq<MemoryType>,
    pub limits: Limits,
}

impl View for Adapter {
    type V = AdapterModel;

    open spec fn view(&self) -> AdapterModel {
        AdapterModel {
            queue_families: self.queue_families@,
            memory_types: self.memory_types@,
            limits: self.limits,
        }
    }
}

impl QueueFamily {
    /// Whether the family can serve: it draws, it presents to the surface,
    /// and it has a queue.
    pub open spec fn spec_compatible(self) -> bool {
        self.graphics && self.presentable && self.max_queues >= 1
    }

    /// Whether the family can serve.
    pub fn compatible(&self) -> (b: bool)
        ensures
            b == self.spec_compatible(),
    {
        self.graphics && self.presentable && self.max_queues >= 1
    }
}

/// The first compatible family among `families`, or their number where none
/// is compatible.
pub open spec fn first_compatible_family(families: Seq<QueueFamily>) -> int
    decreases families.len(),
{
    if families.len() == 0 {
        0
    } else if families[0].spec_compatible() {
        0
    } else {
        1 + first_compatible_family(families.skip(1))
    }
}

/// `first_compatible_family` is the least index of a compatible family.
pub proof fn first_compatible_family_is_least(families: Seq<QueueFamily>)
    ensures
        0 <= first_compatible_family(families) <= families.len(),
        first_compatible_family(families) < families.len() ==> families[first_compatible_family(
            families,
        )].spec_compatible(),
        forall|j: int|
            0 <= j < first_compatible_family(families) ==> !families[j].spec_compatible(),
    decreases families.len(),
{
    if families.len() > 0 && !families[0].spec_compatible() {
        let rest = families.skip(1);
        first_compatible_family_is_least(rest);
        assert forall|j: int| 0 <= j < first_compatible_family(families) implies !families[j]
            .spec_compatible() by {
            if j > 0 {
                assert(rest[j - 1] == families[j]);
            }
        }
    }
}

/// Whether the adapter has a compatible queue family.
pub open spec fn adapter_compatible(adapter: AdapterModel) -> bool {
    first_compatible_family(adapter.queue_families) < adapter.queue_families.len()
}

/// The first compatible adapter among `adapters`, or their number where none
/// is compatible.
pub open spec fn first_compatible_adapter(adapters: Seq<AdapterModel>) -> int
    decreases adapters.len(),
{
    if adapters.len() == 0 {
        0
    } else if adapter_compatible(adapters[0]) {
        0
    } else {
        1 + first_compatible_adapter(adapters.skip(1))
    }
}

/// `first_compatible_adapter` is the least index of a compatible adapter.
pub proof fn first_compatible_adapter_is_least(adapters: Seq<AdapterModel>)
    ensures
        0 <= first_compatible_adapter(adapters) <= adapters.len(),
        first_compatible_adapter(adapters) < adapters.len() ==> adapter_compatible(
            adapters[first_compatible_adapter(adapters)],
        ),
        forall|j: int|
            0 <= j < first_compatible_adapter(adapters) ==> !adapter_compatible(adapters[j]),
    decreases adapters.len(),
{
    if adapters.len() > 0 && !adapter_compatible(adapters[0]) {
        let rest = adapters.skip(1);
        first_compatible_adapter_is_least(rest);
        assert forall|j: int|
            0 <= j < first_compatible_adapter(adapters) implies !adapter_compatible(
            adapters[j],
        ) by {
            if j > 0 {
                assert(rest[j - 1] == adapters[j]);
            }
        }
    }
}

/// The index of the first compatible family, or the number of families.
pub fn find_compatible_family(families: &Vec<QueueFamily>) -> (index: usize)
    ensures
        index == first_compatible_family(families@),
{
    let mut index: usize = 0;
    while index < families.len()
        invariant
            index <= families.len(),
            forall|j: int| 0 <= j < index ==> !families@[j].spec_compatible(),
        decreases families.len() - index,
    {
        if families[index].compatible() {
            proof {
                first_compatible_family_is_least(families@);
                assert(first_compatible_family(families@) == index);
            }
            return index;
        }
        index += 1;
    }
    proof {
        first_compatible_family_is_least(families@);
        assert(first_compatible_family(families@) == families.len());
    }
    index
}

/// The views of the adapters.
pub open spec fn adapter_models(adapters: Seq<Adapter>) -> Seq<AdapterModel> {
    adapters.map_values(|a: Adapter| a@)
}

/// The adapter that was chosen, with the queue family that serves and with
/// what the adapter tells of itself.
#[derive(Debug, PartialEq, Eq)]
pub struct DeviceContext {
    adapter: usize,
    queue_family: usize,
    memory_types: Vec<MemoryType>,
    limits: Limits,
}

/// A device context as the contracts speak of it.
pub struct DeviceContextModel {
    /// Index of the adapter among those that were offered.
    pub adapter: usize,
    /// Index of the queue family among those of the adapter.
    pub queue_family: usize,
    pub memory_types: Seq<MemoryType>,
    pub limits: Limits,
}

impl View for DeviceContext {
    type V = DeviceContextModel;

    closed spec fn view(&self) -> DeviceContextModel {
        DeviceContextModel {
            adapter: self.adapter,
            queue_family: self.queue_family,
            memory_types: self.memory_types@,
            limits: self.limits,
        }
    }
}

/// The context that `select` makes of the adapters, where one is compatible.
pub open spec fn selected_context(adapters: Seq<AdapterModel>) -> DeviceContextModel {
    let adapter = first_compatible_adapter(adapters);
    DeviceContextModel {
        adapter: adapter as usize,
        queue_family: first_compatible_family(adapters[adapter].queue_families) as usize,
        memory_types: adapters[adapter].memory_types,
        limits: adapters[adapter].limits,
    }
}

/// A copy of the memory-type table.
fn copy_memory_types(memory_types: &Vec<MemoryType>) -> (copy: Vec<MemoryType>)
    ensures
        copy@ == memory_types@,
{
    let mut copy: Vec<MemoryType> = Vec::new();
    let mut i: usize = 0;
    while i < memory_types.len()
        invariant
            i <= memory_types.len(),
            copy@ == memory_types@.take(i as int),
        decreases memory_types.len() - i,
    {
        copy.push(memory_types[i]);
        assert(copy@ =~= memory_types@.take(i + 1));
        i += 1;
    }
    assert(copy@ =~= memory_types@);
    copy
}

impl DeviceContext {
    /// Picks the first adapter that has a queue family which draws, presents
    /// to the surface and has a queue, and of its families the first such.
    pub fn select(adapters: &Vec<Adapter>) -> (context: Result<DeviceContext, SetupError>)
        ensures
            context is Ok <==> first_compatible_adapter(adapter_models(adapters@))
                < adapters.len(),
            context matches Ok(c) ==> c@ == selected_context(adapter_models(adapters@)),
            context matches Err(e) ==> e == SetupError::NoCompatibleAdapter,
    {
        let ghost models = adapter_models(adapters@);
        let mut index: usize = 0;
        while index < adapters.len()
            invariant
                index <= adapters.len(),
                models == adapter_models(adapters@),
                forall|j: int| 0 <= j < index ==> !adapter_compatible(models[j]),
            decreases adapters.len() - index,
        {
            let family = find_compatible_family(&adapters[index].queue_families);
            if family < adapters[index].queue_families.len() {
                proof {
                    first_compatible_adapter_is_least(models);
                    assert(models[index as int] == adapters@[index as int]@);
                    assert(adapter_compatible(models[index as int]));
                    assert(first_compatible_adapter(models) == index);
                }
                return Ok(
                    DeviceContext {
                        adapter: index,
                        queue_family: family,
                        memory_types: copy_memory_types(&adapters[index].memory_types),
                        limits: adapters[index].limits,
                    },
                );
            }
            assert(models[index as int] == adapters@[index as int]@);
            index += 1;
        }
        proof {
            first_compatible_adapter_is_least(models);
            assert(first_compatible_adapter(models) == adapters.len());
        }
        Err(SetupError::NoCompatibleAdapter)
    }

    /// Index of the chosen adapter among those that were offered.
    pub fn adapter(&self) -> (index: usize)
        ensures
            index == self@.adapter,
    {
        self.adapter
    }

    /// Index of the chosen queue family among those of the adapter.
    pub fn queue_family(&self) -> (index: usize)
        ensures
            index == self@.queue_family,
    {
        self.queue_family
    }

    /// The adapter's memory-type table.
    pub fn memory_types(&self) -> (table: &Vec<MemoryType>)
        ensures
            table@ == self@.memory_types,
    {
        &self.memory_types
    }

    /// The adapter's limits.
    pub fn limits(&self) -> (limits: Limits)
        ensures
            limits == self@.limits,
    {
        self.limits
    }
}

} // verus!
