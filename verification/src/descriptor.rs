//! The descriptor manager: one set layout, one pool and one set, which binds
//! the texture's view and the sampler for the fragment stage.

use crate::barrier::ImageLayout;
use crate::error::{SetupError, SetupStep};
use vstd::prelude::*;

verus! {

/// The fragment stage, as a shader-stage flag.
pub const SHADER_STAGE_FRAGMENT: u32 = 0x10;

/// How many sets the pool can hold.
pub const MAX_SETS: usize = 1;

/// What a binding holds.
#[derive(Clone, Copy, Debug, PartialEq, Eq, Structural)]
pub enum DescriptorType {
    SampledImage,
    Sampler,
}

/// One binding of the descriptor-set layout.
#[derive(Clone, Copy, Debug, PartialEq, Eq, Structural)]
pub struct LayoutBinding {
    pub binding: u32,
    pub ty: DescriptorType,
    pub count: usize,
    /// The shader stages that see the binding.
    pub stage_flags: u32,
    pub immutable_samplers: bool,
}

/// How many descriptors of one type the pool can hold.
#[derive(Clone, Copy, Debug, PartialEq, Eq, Structural)]
pub struct PoolRange {
    pub ty: DescriptorType,
    pub count: usize,
}

/// What is written into a binding.
#[derive(Clone, Copy, Debug, PartialEq, Eq, Structural)]
pub enum Descriptor {
    /// The view of the texture, with the layout that is named for it.
    Image { layout: ImageLayout },
    /// The sampler.
    Sampler,
}

/// One write into the descriptor set.
#[derive(Clone, Copy, Debug, PartialEq, Eq, Structural)]
pub struct DescriptorWrite {
    pub binding: u32,
    pub array_offset: usize,
    pub descriptor: Descriptor,
}

/// The layout: binding 0 is one sampled image, binding 1 one sampler, both
/// seen by the fragment stage alone.
pub open spec fn spec_set_layout() -> Seq<LayoutBinding> {
    seq![
        LayoutBinding {
            binding: 0,
            ty: DescriptorType::SampledImage,
            count: 1,
            stage_flags: SHADER_STAGE_FRAGMENT,
            immutable_samplers: false,
        },
        LayoutBinding {
            binding: 1,
            ty: DescriptorType::Sampler,
            count: 1,
            stage_flags: SHADER_STAGE_FRAGMENT,
            immutable_samplers: false,
        },
    ]
}

/// The pool: room for one sampled image and for one sampler.
pub open spec fn spec_pool_ranges() -> Seq<PoolRange> {
    seq![
        PoolRange { ty: DescriptorType::SampledImage, count: 1 },
        PoolRange { ty: DescriptorType::Sampler, count: 1 },
    ]
}

/// The writes: the texture's view into binding 0, the sampler into binding 1.
pub open spec fn spec_writes() -> Seq<DescriptorWrite> {
    seq![
        DescriptorWrite {
            binding: 0,
            array_offset: 0,
            descriptor: Descriptor::Image { layout: ImageLayout::Undefined },
        },
        DescriptorWrite { binding: 1, array_offset: 0, descriptor: Descriptor::Sampler },
    ]
}

/// How many descriptors of type `ty` a set with these bindings holds.
pub open spec fn descriptors_in_layout(bindings: Seq<LayoutBinding>, ty: DescriptorType) -> nat
    decreases bindings.len(),
{
    if bindings.len() == 0 {
        0
    } else {
        descriptors_in_layout(bindings.drop_last(), ty) + if bindings.last().ty == ty {
            bindings.last().count as nat
        } else {
            0nat
        }
    }
}

/// How many descriptors of type `ty` a pool with these ranges can hold.
pub open spec fn descriptors_in_pool(ranges: Seq<PoolRange>, ty: DescriptorType) -> nat
    decreases ranges.len(),
{
    if ranges.len() == 0 {
        0
    } else {
        descriptors_in_pool(ranges.drop_last(), ty) + if ranges.last().ty == ty {
            ranges.last().count as nat
        } else {
            0nat
        }
    }
}

/// The pool is sized exactly: of each type it holds what one set needs, no
/// more and no less.
pub proof fn pool_holds_exactly_one_set(ty: DescriptorType)
    ensures
        descriptors_in_pool(spec_pool_ranges(), ty) == MAX_SETS * descriptors_in_layout(
            spec_set_layout(),
            ty,
        ),
        descriptors_in_layout(spec_set_layout(), ty) == 1,
{
    let bindings = spec_set_layout();
    let ranges = spec_pool_ranges();
    reveal_with_fuel(descriptors_in_layout, 3);
    reveal_with_fuel(descriptors_in_pool, 3);
    assert(bindings.drop_last().drop_last() =~= Seq::<LayoutBinding>::empty());
    assert(ranges.drop_last().drop_last() =~= Seq::<PoolRange>::empty());
    assert(bindings.drop_last().last() == bindings[0]);
    assert(ranges.drop_last().last() == ranges[0]);
}

/// Every binding is seen by the fragment stage and by no other, and every
/// write goes to a binding of the layout that holds what is written.
pub proof fn bindings_are_fragment_only()
    ensures
        forall|i: int|
            0 <= i < spec_set_layout().len() ==> (#[trigger] spec_set_layout()[i]).stage_flags
                == SHADER_STAGE_FRAGMENT,
        forall|i: int|
            0 <= i < spec_set_layout().len() ==> (#[trigger] spec_set_layout()[i]).binding == i,
        forall|i: int|
            0 <= i < spec_writes().len() ==> (#[trigger] spec_writes()[i]).binding
                == spec_set_layout()[i].binding && (spec_writes()[i].descriptor is Image
                <==> spec_set_layout()[i].ty == DescriptorType::SampledImage),
{
}

/// The bindings of the descriptor-set layout.
pub fn set_layout() -> (bindings: Vec<LayoutBinding>)
    ensures
        bindings@ == spec_set_layout(),
{
    let mut bindings: Vec<LayoutBinding> = Vec::new();
    bindings.push(
        LayoutBinding {
            binding: 0,
            ty: DescriptorType::SampledImage,
            count: 1,
            stage_flags: SHADER_STAGE_FRAGMENT,
            immutable_samplers: false,
        },
    );
    bindings.push(
        LayoutBinding {
            binding: 1,
            ty: DescriptorType::Sampler,
            count: 1,
            stage_flags: SHADER_STAGE_FRAGMENT,
            immutable_samplers: false,
        },
    );
    assert(bindings@ =~= spec_set_layout());
    bindings
}

/// The ranges of the descriptor pool, which holds `MAX_SETS` sets.
pub fn pool_ranges() -> (ranges: Vec<PoolRange>)
    ensures
        ranges@ == spec_pool_ranges(),
{
    let mut ranges: Vec<PoolRange> = Vec::new();
    ranges.push(PoolRange { ty: DescriptorType::SampledImage, count: 1 });
    ranges.push(PoolRange { ty: DescriptorType::Sampler, count: 1 });
    assert(ranges@ =~= spec_pool_ranges());
    ranges
}

/// The one descriptor set. It is written once, after the texture's view and
/// the sampler exist, and never again.
#[derive(Debug, PartialEq, Eq)]
pub struct DescriptorSet {
    written: bool,
}

impl DescriptorSet {
    /// Whether the set was written.
    pub closed spec fn spec_written(&self) -> bool {
        self.written
    }

    /// Records what the device answered to the creation of the layout, of
    /// the pool and of the set. All three are needed; a failure is fatal.
    pub fn create(layout_created: bool, pool_created: bool, set_allocated: bool) -> (set: Result<
        DescriptorSet,
        SetupError,
    >)
        ensures
            set is Ok <==> layout_created && pool_created && set_allocated,
            set matches Ok(s) ==> !s.spec_written(),
            set matches Err(e) ==> e == SetupError::DescriptorSetupFailed,
    {
        match SetupStep::DescriptorSetup.outcome(layout_created && pool_created && set_allocated) {
            Ok(()) => Ok(DescriptorSet { written: false }),
            Err(e) => Err(e),
        }
    }

    /// Whether the set was written.
    pub fn written(&self) -> (b: bool)
        ensures
            b == self.spec_written(),
    {
        self.written
    }

    /// The writes that bind the texture's view and the sampler. They are
    /// handed out once, and only when both exist; after that the set counts
    /// as written, and there are no further writes.
    pub fn write(&mut self, view_exists: bool, sampler_exists: bool) -> (writes: Option<
        Vec<DescriptorWrite>,
    >)
        ensures
            writes is Some <==> !old(self).spec_written() && view_exists && sampler_exists,
            writes matches Some(w) ==> w@ == spec_writes(),
            final(self).spec_written() == (old(self).spec_written() || writes is Some),
    {
        if self.written || !view_exists || !sampler_exists {
            return None;
        }
        let mut writes: Vec<DescriptorWrite> = Vec::new();
        writes.push(
            DescriptorWrite {
                binding: 0,
                array_offset: 0,
                descriptor: Descriptor::Image { layout: ImageLayout::Undefined },
            },
        );
        writes.push(
            DescriptorWrite { binding: 1, array_offset: 0, descriptor: Descriptor::Sampler },
        );
        assert(writes@ =~= spec_writes());
        self.written = true;
        Some(writes)
    }
}

} // verus!
