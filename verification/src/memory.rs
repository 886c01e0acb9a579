//! Memory-type selection and the binding of buffers and images to memory.
//!
//! A resource becomes usable through exactly one successful bind. The bind is
//! split in stages that follow the device calls: a [`ResourceRequest`] is
//! created, the device reports its [`Requirements`], [`ResourceRequest::plan`]
//! picks a memory type, and [`PlannedAllocation::bind`] records what the
//! device answered to the allocation. A plan is used up by its bind, and a
//! [`BoundResource`] comes from nowhere else, so no resource is bound twice.

use vstd::prelude::*;

verus! {

/// Memory on the device itself.
pub const DEVICE_LOCAL: u16 = 0x1;

/// Host writes become visible to the device without an explicit flush.
pub const COHERENT: u16 = 0x4;

/// Memory the host can map.
pub const CPU_VISIBLE: u16 = 0x2;

/// Memory cached on the host.
pub const CPU_CACHED: u16 = 0x8;

/// Memory that the device may allocate lazily.
pub const LAZILY_ALLOCATED: u16 = 0x10;

/// A buffer that copies read from.
pub const BUFFER_USAGE_TRANSFER_SRC: u32 = 0x1;

/// A buffer that holds vertices.
pub const BUFFER_USAGE_VERTEX: u32 = 0x80;

/// An image that copies write to.
pub const IMAGE_USAGE_TRANSFER_DST: u32 = 0x2;

/// An image that shaders sample.
pub const IMAGE_USAGE_SAMPLED: u32 = 0x4;

/// Number of memory types that a type mask can name.
pub const MASK_BITS: usize = 64;

/// A set of memory property flags.
#[derive(Clone, Copy, Debug, PartialEq, Eq, Structural)]
pub struct MemoryProperties {
    pub bits: u16,
}

impl MemoryProperties {
    /// Whether every flag of `required` is also a flag of `self`.
    pub open spec fn spec_contains(self, required: MemoryProperties) -> bool {
        self.bits & required.bits == required.bits
    }

    /// The flag set with exactly the given bits.
    pub fn from_bits(bits: u16) -> (p: MemoryProperties)
        ensures
            p.bits == bits,
    {
        MemoryProperties { bits }
    }

    /// Whether every flag of `required` is also a flag of `self`.
    pub fn contains(&self, required: MemoryProperties) -> (b: bool)
        ensures
            b == self.spec_contains(required),
    {
        self.bits & required.bits == required.bits
    }

    /// What a staging buffer needs: host-visible and host-coherent memory.
    pub open spec fn spec_staging() -> MemoryProperties {
        MemoryProperties { bits: CPU_VISIBLE | COHERENT }
    }

    /// What a staging buffer needs: host-visible and host-coherent memory.
    pub fn staging() -> (p: MemoryProperties)
        ensures
            p == Self::spec_staging(),
    {
        MemoryProperties { bits: CPU_VISIBLE | COHERENT }
    }

    /// What the sampled texture needs: device-local memory.
    pub open spec fn spec_texture() -> MemoryProperties {
        MemoryProperties { bits: DEVICE_LOCAL }
    }

    /// What the sampled texture needs: device-local memory.
    pub fn texture() -> (p: MemoryProperties)
        ensures
            p == Self::spec_texture(),
    {
        MemoryProperties { bits: DEVICE_LOCAL }
    }

    /// Whether the host can map memory with these properties.
    pub open spec fn spec_host_visible(self) -> bool {
        self.bits & CPU_VISIBLE == CPU_VISIBLE
    }

    /// Whether the host can map memory with these properties.
    pub fn host_visible(&self) -> (b: bool)
        ensures
            b == self.spec_host_visible(),
    {
        self.bits & CPU_VISIBLE == CPU_VISIBLE
    }
}

/// One entry of an adapter's memory-type table.
#[derive(Clone, Copy, Debug, PartialEq, Eq, Structural)]
pub struct MemoryType {
    pub properties: MemoryProperties,
    pub heap_index: usize,
}

/// What the device demands of the memory behind a resource.
#[derive(Clone, Copy, Debug, PartialEq, Eq, Structural)]
pub struct Requirements {
    pub size: u64,
    pub alignment: u64,
    /// Bit `i` is set where memory type `i` can back the resource.
    pub type_mask: u64,
}

/// Why a resource could not be bound.
#[derive(Clone, Copy, Debug, PartialEq, Eq, Structural)]
pub enum AllocError {
    /// No memory type is both allowed by the mask and has the properties.
    NoSuitableMemoryType,
    /// The device could not allocate the memory.
    AllocationFailed,
}

/// Whether `mask` allows the memory type with the given index.
pub open spec fn mask_allows(mask: u64, index: int) -> bool {
    0 <= index < MASK_BITS && (mask >> (index as u64)) & 1 == 1
}

/// Whether memory type `index` of `types` can back a resource with the given
/// mask and has all the `required` properties.
pub open spec fn suitable(
    types: Seq<MemoryType>,
    mask: u64,
    required: MemoryProperties,
    index: int,
) -> bool {
    &&& 0 <= index < types.len()
    &&& mask_allows(mask, index)
    &&& types[index].properties.spec_contains(required)
}

/// The first suitable index of `types`, or `types.len()` where none is.
pub open spec fn first_suitable(
    types: Seq<MemoryType>,
    mask: u64,
    required: MemoryProperties,
) -> int
    decreases types.len(),
{
    if types.len() == 0 {
        0
    } else {
        let before = first_suitable(types.drop_last(), mask, required);
        if before < types.len() - 1 {
            before
        } else if suitable(types, mask, required, types.len() - 1) {
            types.len() - 1
        } else {
            types.len() as int
        }
    }
}

/// `first_suitable` is the least suitable index, and the length of the table
/// exactly where no index is suitable.
pub proof fn first_suitable_is_least(types: Seq<MemoryType>, mask: u64, required: MemoryProperties)
    ensures
        0 <= first_suitable(types, mask, required) <= types.len(),
        first_suitable(types, mask, required) < types.len() ==> suitable(
            types,
            mask,
            required,
            first_suitable(types, mask, required),
        ),
        forall|j: int|
            0 <= j < first_suitable(types, mask, required) ==> !suitable(types, mask, required, j),
    decreases types.len(),
{
    if types.len() > 0 {
        let shorter = types.drop_last();
        first_suitable_is_least(shorter, mask, required);
        assert forall|j: int| 0 <= j < shorter.len() implies suitable(types, mask, required, j)
            == suitable(shorter, mask, required, j) by {
            assert(shorter[j] == types[j]);
        }
    }
}

/// Scans the memory-type table for the first index whose bit is set in
/// `type_mask` and whose properties include all of `required`.
pub fn select_memory_type(
    memory_types: &Vec<MemoryType>,
    type_mask: u64,
    required: MemoryProperties,
) -> (chosen: Result<usize, AllocError>)
    ensures
        match chosen {
            Ok(index) => {
                &&& suitable(memory_types@, type_mask, required, index as int)
                &&& forall|j: int|
                    0 <= j < index ==> !suitable(memory_types@, type_mask, required, j)
                &&& index == first_suitable(memory_types@, type_mask, required)
            },
            Err(e) => {
                &&& e == AllocError::NoSuitableMemoryType
                &&& forall|j: int|
                    0 <= j < memory_types.len() ==> !suitable(
                        memory_types@,
                        type_mask,
                        required,
                        j,
                    )
                &&& first_suitable(memory_types@, type_mask, required) == memory_types.len()
            },
        },
{
    let mut index: usize = 0;
    while index < memory_types.len()
        invariant
            index <= memory_types.len(),
            forall|j: int| 0 <= j < index ==> !suitable(memory_types@, type_mask, required, j),
        decreases memory_types.len() - index,
    {
        if index < MASK_BITS && (type_mask >> (index as u64)) & 1 == 1
            && memory_types[index].properties.contains(required) {
            proof {
                first_suitable_is_least(memory_types@, type_mask, required);
                assert(suitable(memory_types@, type_mask, required, index as int));
                assert(index == first_suitable(memory_types@, type_mask, required));
            }
            return Ok(index);
        }
        index += 1;
    }
    proof {
        first_suitable_is_least(memory_types@, type_mask, required);
    }
    Err(AllocError::NoSuitableMemoryType)
}

/// What is being bound: a buffer of a size in bytes, or a 2D image.
#[derive(Clone, Copy, Debug, PartialEq, Eq, Structural)]
pub enum ResourceKind {
    Buffer { size: u64 },
    Image { width: u32, height: u32 },
}

/// A resource that was created and is not bound to memory yet.
#[derive(Clone, Copy, Debug, PartialEq, Eq, Structural)]
pub struct ResourceRequest {
    pub kind: ResourceKind,
    /// Usage flags, as the device takes them.
    pub usage: u32,
    /// The properties that the memory behind the resource must have.
    pub required: MemoryProperties,
}

/// A block of device memory.
#[derive(Clone, Copy, Debug, PartialEq, Eq, Structural)]
pub struct MemoryAllocation {
    pub type_index: usize,
    pub size: u64,
    pub properties: MemoryProperties,
    pub host_visible: bool,
}

/// A resource together with the memory that is chosen for it or bound to it.
#[derive(Clone, Copy, Debug, PartialEq, Eq, Structural)]
pub struct Binding {
    pub request: ResourceRequest,
    pub requirements: Requirements,
    pub memory: MemoryAllocation,
    /// Offset of the resource in its memory block.
    pub offset: u64,
}

impl Binding {
    /// The memory type is allowed by the resource's type mask and has every
    /// required property, the block has the size that the device asked for,
    /// and the resource lies at its start.
    pub open spec fn wf(self) -> bool {
        &&& mask_allows(self.requirements.type_mask, self.memory.type_index as int)
        &&& self.memory.properties.spec_contains(self.request.required)
        &&& self.memory.size == self.requirements.size
        &&& self.memory.host_visible == self.memory.properties.spec_host_visible()
        &&& self.offset == 0
    }
}

/// The binding that `plan` chooses for a request, given the device's
/// requirements and where `index` is the chosen memory type.
pub open spec fn binding_for(
    request: ResourceRequest,
    types: Seq<MemoryType>,
    requirements: Requirements,
    index: int,
) -> Binding {
    Binding {
        request,
        requirements,
        memory: MemoryAllocation {
            type_index: index as usize,
            size: requirements.size,
            properties: types[index].properties,
            host_visible: types[index].properties.spec_host_visible(),
        },
        offset: 0,
    }
}

/// A resource for which a memory type was chosen; the allocation is still to
/// be made by the device. It can be bound once, and is used up by that.
#[derive(Debug, PartialEq, Eq)]
pub struct PlannedAllocation {
    binding: Binding,
}

/// A resource bound to its memory, and so usable. There is no way to one but
/// through a plan and the one bind that the plan allows.
#[derive(Debug, PartialEq, Eq)]
pub struct BoundResource {
    binding: Binding,
}

impl View for PlannedAllocation {
    type V = Binding;

    closed spec fn view(&self) -> Binding {
        self.binding
    }
}

impl View for BoundResource {
    type V = Binding;

    closed spec fn view(&self) -> Binding {
        self.binding
    }
}

impl PlannedAllocation {
    #[verifier::type_invariant]
    spec fn well_formed(self) -> bool {
        self.binding.wf()
    }

    /// What was chosen: the memory type and the size to allocate.
    pub fn binding(&self) -> (binding: Binding)
        ensures
            binding == self@,
            binding.wf(),
    {
        proof {
            use_type_invariant(self);
        }
        self.binding
    }

    /// Records the device's answer to the allocation: with the memory
    /// allocated the resource is bound at offset 0, otherwise the binding
    /// fails with `AllocationFailed`.
    pub fn bind(self, allocated: bool) -> (bound: Result<BoundResource, AllocError>)
        ensures
            bound is Ok <==> allocated,
            bound matches Ok(b) ==> b@ == self@ && b@.wf(),
            bound matches Err(e) ==> e == AllocError::AllocationFailed,
    {
        proof {
            use_type_invariant(&self);
        }
        if allocated {
            Ok(BoundResource { binding: self.binding })
        } else {
            Err(AllocError::AllocationFailed)
        }
    }
}

impl BoundResource {
    #[verifier::type_invariant]
    spec fn well_formed(self) -> bool {
        self.binding.wf()
    }

    /// The resource, its memory and its place in it. The memory satisfies
    /// the resource's type mask and has the properties that were asked for.
    pub fn binding(&self) -> (binding: Binding)
        ensures
            binding == self@,
            binding.wf(),
    {
        proof {
            use_type_invariant(self);
        }
        self.binding
    }

    /// Whether the host may map the resource's memory and write to it.
    pub fn host_writable(&self) -> (b: bool)
        ensures
            b == self@.memory.host_visible,
    {
        self.binding.memory.host_visible
    }
}

impl ResourceRequest {
    /// Chooses the memory for the resource from what the device requires of
    /// it: the first memory type that the type mask allows and that has every
    /// required property, in the size that the device asks for.
    pub fn plan(self, requirements: Requirements, memory_types: &Vec<MemoryType>) -> (planned:
        Result<PlannedAllocation, AllocError>)
        ensures
            planned is Ok <==> first_suitable(memory_types@, requirements.type_mask, self.required)
                < memory_types.len(),
            planned matches Ok(p) ==> p@ == binding_for(
                self,
                memory_types@,
                requirements,
                first_suitable(memory_types@, requirements.type_mask, self.required),
            ) && p@.wf(),
            planned matches Err(e) ==> e == AllocError::NoSuitableMemoryType,
    {
        match select_memory_type(memory_types, requirements.type_mask, self.required) {
            Ok(index) => {
                let properties = memory_types[index].properties;
                let binding = Binding {
                    request: self,
                    requirements,
                    memory: MemoryAllocation {
                        type_index: index,
                        size: requirements.size,
                        properties,
                        host_visible: properties.host_visible(),
                    },
                    offset: 0,
                };
                Ok(PlannedAllocation { binding })
            },
            Err(e) => Err(e),
        }
    }
}

/// Starts the binding of a buffer of `size` bytes with the given usage flags,
/// to be backed by memory with the `required` properties.
pub fn create_bound_buffer(size: u64, usage: u32, required: MemoryProperties) -> (request:
    ResourceRequest)
    ensures
        request == (ResourceRequest { kind: ResourceKind::Buffer { size }, usage, required }),
{
    ResourceRequest { kind: ResourceKind::Buffer { size }, usage, required }
}

/// Starts the binding of a 2D image of the given extent and usage flags, to
/// be backed by memory with the `required` properties.
pub fn create_bound_image(
    width: u32,
    height: u32,
    usage: u32,
    required: MemoryProperties,
) -> (request: ResourceRequest)
    ensures
        request == (ResourceRequest {
            kind: ResourceKind::Image { width, height },
            usage,
            required,
        }),
{
    ResourceRequest { kind: ResourceKind::Image { width, height }, usage, required }
}

/// The request for the vertex buffer, which the host writes: a vertex buffer
/// in host-visible, host-coherent memory.
pub fn vertex_buffer(size: u64) -> (request: ResourceRequest)
    ensures
        request == (ResourceRequest {
            kind: ResourceKind::Buffer { size },
            usage: BUFFER_USAGE_VERTEX,
            required: MemoryProperties::spec_staging(),
        }),
{
    create_bound_buffer(size, BUFFER_USAGE_VERTEX, MemoryProperties::staging())
}

/// The request for the staging buffer: a source of copies in host-visible,
/// host-coherent memory.
pub fn staging_buffer(size: u64) -> (request: ResourceRequest)
    ensures
        request == (ResourceRequest {
            kind: ResourceKind::Buffer { size },
            usage: BUFFER_USAGE_TRANSFER_SRC,
            required: MemoryProperties::spec_staging(),
        }),
{
    create_bound_buffer(size, BUFFER_USAGE_TRANSFER_SRC, MemoryProperties::staging())
}

/// The request for the texture: an image that copies write to and shaders
/// sample, in device-local memory.
pub fn texture_image(width: u32, height: u32) -> (request: ResourceRequest)
    ensures
        request == (ResourceRequest {
            kind: ResourceKind::Image { width, height },
            usage: IMAGE_USAGE_TRANSFER_DST | IMAGE_USAGE_SAMPLED,
            required: MemoryProperties::spec_texture(),
        }),
{
    create_bound_image(
        width,
        height,
        IMAGE_USAGE_TRANSFER_DST | IMAGE_USAGE_SAMPLED,
        MemoryProperties::texture(),
    )
}

/// A resource that was bound for staging can be written by the host.
pub proof fn staging_resources_are_host_writable(binding: Binding)
    requires
        binding.wf(),
        binding.request.required.spec_contains(MemoryProperties::spec_staging()),
    ensures
        binding.memory.host_visible,
{
    staging_memory_is_host_visible(binding.memory.properties, binding.request.required);
}

/// Memory that has the staging properties can be mapped by the host.
pub proof fn staging_memory_is_host_visible(have: MemoryProperties, required: MemoryProperties)
    requires
        have.spec_contains(required),
        required.spec_contains(MemoryProperties::spec_staging()),
    ensures
        have.spec_host_visible(),
        have.spec_contains(MemoryProperties::spec_staging()),
{
    let h = have.bits;
    let r = required.bits;
    assert(CPU_VISIBLE | COHERENT == 6u16) by (bit_vector);
    assert(h & 2u16 == 2u16 && h & 6u16 == 6u16) by (bit_vector)
        requires
            h & r == r,
            r & 6u16 == 6u16,
    ;
}

} // verus!
