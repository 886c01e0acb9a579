//! The application: the adapter it runs on, the flag that keeps its loop
//! running, and the order in which it takes its resources down.

use crate::device::{
    adapter_models,
    first_compatible_adapter,
    selected_context,
    Adapter,
    DeviceContext,
};
use crate::error::SetupError;
use crate::frame::{Event, FrameScheduler, SchedulerModel, DEFAULT_FRAME_SLOTS};
use crate::memory::{
    binding_for,
    first_suitable,
    PlannedAllocation,
    Requirements,
    ResourceRequest,
};
use crate::swapchain::Extent;
use crate::texture::Texture;
use crate::upload::{Upload, UploadLayout, UploadModel};
use vstd::prelude::*;

verus! {

/// Width of the window, in pixels.
pub const WINDOW_WIDTH: u32 = 800;

/// Height of the window, in pixels.
pub const WINDOW_HEIGHT: u32 = 600;

/// A key of the keyboard, as far as the application tells keys apart.
#[derive(Clone, Copy, Debug, PartialEq, Eq, Structural)]
pub enum Key {
    Escape,
    Other,
}

/// An event of the window, as far as the application tells events apart.
#[derive(Clone, Copy, Debug, PartialEq, Eq, Structural)]
pub enum WindowEvent {
    /// The user asked for the window to be closed.
    CloseRequested,
    /// A key went down or up.
    KeyboardInput { key: Option<Key> },
    /// Anything else.
    Other,
}

impl WindowEvent {
    /// Whether the event ends the loop: a request to close the window, or
    /// the escape key.
    pub open spec fn spec_cancels(self) -> bool {
        self == WindowEvent::CloseRequested || self == (WindowEvent::KeyboardInput {
            key: Some(Key::Escape),
        })
    }

    /// Whether the event ends the loop.
    pub fn cancels(&self) -> (b: bool)
        ensures
            b == self.spec_cancels(),
    {
        match self {
            WindowEvent::CloseRequested => true,
            WindowEvent::KeyboardInput { key: Some(Key::Escape) } => true,
            _ => false,
        }
    }
}

/// Whether one of the events ends the loop.
pub open spec fn any_cancels(events: Seq<WindowEvent>) -> bool {
    exists|i: int| 0 <= i < events.len() && (#[trigger] events[i]).spec_cancels()
}

/// A kind of resource that the application owns until it is taken down.
#[derive(Clone, Copy, Debug, PartialEq, Eq, Structural)]
pub enum Resource {
    DescriptorPool,
    DescriptorSetLayout,
    VertexBuffer,
    StagingBuffer,
    TextureView,
    Texture,
    Sampler,
    AcquireSemaphores,
    SubmitSemaphores,
    Fences,
    CommandPools,
    RenderPass,
    VertexMemory,
    StagingMemory,
    TextureMemory,
    Pipeline,
    PipelineLayout,
    Framebuffers,
    FrameViews,
    Swapchain,
}

/// One step of taking the application down.
#[derive(Clone, Copy, Debug, PartialEq, Eq, Structural)]
pub enum TeardownStep {
    /// Block until the device is idle.
    WaitIdle,
    /// Destroy the resources of this kind, or free the memory.
    Destroy(Resource),
}

/// The order in which the kinds of resource are destroyed: each before what
/// it was made of, refers to or is bound to.
pub open spec fn spec_teardown_order() -> Seq<Resource> {
    seq![
        Resource::DescriptorPool,
        Resource::VertexBuffer,
        Resource::StagingBuffer,
        Resource::TextureView,
        Resource::Sampler,
        Resource::Texture,
        Resource::AcquireSemaphores,
        Resource::SubmitSemaphores,
        Resource::Fences,
        Resource::CommandPools,
        Resource::Pipeline,
        Resource::PipelineLayout,
        Resource::DescriptorSetLayout,
        Resource::Framebuffers,
        Resource::RenderPass,
        Resource::FrameViews,
        Resource::Swapchain,
        Resource::VertexMemory,
        Resource::StagingMemory,
        Resource::TextureMemory,
    ]
}

/// Whether `user` is made of `used`, refers to it or is bound to it, and so
/// must be destroyed first.
pub open spec fn depends_on(user: Resource, used: Resource) -> bool {
    match (user, used) {
        (Resource::DescriptorPool, Resource::DescriptorSetLayout) => true,
        (Resource::DescriptorPool, Resource::TextureView) => true,
        (Resource::DescriptorPool, Resource::Sampler) => true,
        (Resource::TextureView, Resource::Texture) => true,
        (Resource::Sampler, Resource::Texture) => true,
        (Resource::VertexBuffer, Resource::VertexMemory) => true,
        (Resource::StagingBuffer, Resource::StagingMemory) => true,
        (Resource::Texture, Resource::TextureMemory) => true,
        (Resource::Pipeline, Resource::PipelineLayout) => true,
        (Resource::Pipeline, Resource::RenderPass) => true,
        (Resource::PipelineLayout, Resource::DescriptorSetLayout) => true,
        (Resource::Framebuffers, Resource::RenderPass) => true,
        (Resource::Framebuffers, Resource::FrameViews) => true,
        (Resource::FrameViews, Resource::Swapchain) => true,
        _ => false,
    }
}

/// The place of a resource's kind in the order of teardown, counted from 1.
pub open spec fn destroyed_at(resource: Resource) -> int {
    match resource {
        Resource::DescriptorPool => 1,
        Resource::VertexBuffer => 2,
        Resource::StagingBuffer => 3,
        Resource::TextureView => 4,
        Resource::Sampler => 5,
        Resource::Texture => 6,
        Resource::AcquireSemaphores => 7,
        Resource::SubmitSemaphores => 8,
        Resource::Fences => 9,
        Resource::CommandPools => 10,
        Resource::Pipeline => 11,
        Resource::PipelineLayout => 12,
        Resource::DescriptorSetLayout => 13,
        Resource::Framebuffers => 14,
        Resource::RenderPass => 15,
        Resource::FrameViews => 16,
        Resource::Swapchain => 17,
        Resource::VertexMemory => 18,
        Resource::StagingMemory => 19,
        Resource::TextureMemory => 20,
    }
}

/// Those of the resources in `order` that were created, in their order.
pub open spec fn created_of(order: Seq<Resource>, created: Seq<Resource>) -> Seq<Resource>
    decreases order.len(),
{
    if order.len() == 0 {
        Seq::empty()
    } else if created.contains(order.last()) {
        created_of(order.drop_last(), created).push(order.last())
    } else {
        created_of(order.drop_last(), created)
    }
}

/// The step that destroys the resources of a kind.
pub open spec fn destroy(resource: Resource) -> TeardownStep {
    TeardownStep::Destroy(resource)
}

/// The steps that destroy the resources of the kinds, one after the other.
pub open spec fn destroy_all(resources: Seq<Resource>) -> Seq<TeardownStep> {
    resources.map_values(|r: Resource| destroy(r))
}

/// The steps of teardown after a setup that created the resources of the
/// kinds in `created`: the device is drained, then what was created is
/// destroyed in the order of teardown, and nothing else is touched.
pub open spec fn spec_teardown(created: Seq<Resource>) -> Seq<TeardownStep> {
    seq![TeardownStep::WaitIdle] + destroy_all(created_of(spec_teardown_order(), created))
}

/// The order of teardown names every kind of resource at its place, and what
/// depends on another resource comes before it.
pub proof fn order_respects_dependencies()
    ensures
        spec_teardown_order().len() == 20,
        forall|r: Resource|
            1 <= #[trigger] destroyed_at(r) <= 20 && spec_teardown_order()[destroyed_at(r) - 1]
                == r,
        forall|user: Resource, used: Resource| #[trigger]
            depends_on(user, used) ==> destroyed_at(user) < destroyed_at(used),
{
}

/// Of the first `n` kinds in the order of teardown, `created_of` keeps those
/// that were created, each once and in their order.
proof fn created_of_prefix(created: Seq<Resource>, n: int)
    requires
        0 <= n <= 20,
    ensures
        ({
            let kept = created_of(spec_teardown_order().take(n), created);
            &&& forall|k: int|
                0 <= k < kept.len() ==> created.contains(#[trigger] kept[k]) && destroyed_at(
                    kept[k],
                ) <= n
            &&& forall|j: int, k: int|
                0 <= j < k < kept.len() ==> destroyed_at(#[trigger] kept[j]) < destroyed_at(
                    #[trigger] kept[k],
                )
            &&& forall|r: Resource|
                created.contains(r) && #[trigger] destroyed_at(r) <= n ==> kept.contains(r)
        }),
    decreases n,
{
    order_respects_dependencies();
    let order = spec_teardown_order();
    let kept = created_of(order.take(n), created);
    if n > 0 {
        created_of_prefix(created, n - 1);
        let before = created_of(order.take(n - 1), created);
        let last = order[n - 1];
        assert(order.take(n).drop_last() =~= order.take(n - 1));
        assert(order.take(n).last() == last);
        assert(destroyed_at(last) == n);
        assert forall|r: Resource|
            created.contains(r) && #[trigger] destroyed_at(r) <= n implies kept.contains(r) by {
            if destroyed_at(r) == n {
                assert(order[destroyed_at(r) - 1] == r);
                assert(kept == before.push(last));
                assert(kept[kept.len() - 1] == r);
            } else {
                assert(before.contains(r));
                let k = choose|k: int| 0 <= k < before.len() && before[k] == r;
                assert(kept[k] == r);
            }
        }
    }
}

/// Teardown is safe, whatever part of setup was done. Nothing is destroyed
/// before the device is idle. Exactly the resources that were created are
/// destroyed, each kind once, and no other is touched. What depends on
/// another resource is destroyed before it: a view and the sampler before
/// the image, a resource before the memory that it is bound to.
pub proof fn teardown_destroys_what_was_created(created: Seq<Resource>)
    ensures
        spec_teardown(created)[0] == TeardownStep::WaitIdle,
        forall|i: int|
            1 <= i < spec_teardown(created).len() ==> #[trigger] spec_teardown(created)[i]
                is Destroy,
        forall|r: Resource|
            created.contains(r) <==> spec_teardown(created).contains(#[trigger] destroy(r)),
        forall|i: int, j: int|
            0 <= i < j < spec_teardown(created).len() ==> #[trigger] spec_teardown(created)[i]
                != #[trigger] spec_teardown(created)[j],
        forall|i: int, j: int, user: Resource, used: Resource|
            0 <= i < spec_teardown(created).len() && 0 <= j < spec_teardown(created).len()
                && #[trigger] spec_teardown(created)[i] == TeardownStep::Destroy(user)
                && #[trigger] spec_teardown(created)[j] == TeardownStep::Destroy(used)
                && #[trigger] depends_on(user, used) ==> i < j,
{
    order_respects_dependencies();
    created_of_prefix(created, 20);
    let order = spec_teardown_order();
    assert(order.take(20) =~= order);
    let kept = created_of(order, created);
    let steps = spec_teardown(created);
    assert(steps.len() == kept.len() + 1);
    assert forall|i: int| 1 <= i < steps.len() implies steps[i] == TeardownStep::Destroy(
        kept[i - 1],
    ) by {}
    assert forall|r: Resource| created.contains(r) implies steps.contains(
        #[trigger] destroy(r),
    ) by {
        assert(destroyed_at(r) <= 20);
        assert(kept.contains(r));
        let k = choose|k: int| 0 <= k < kept.len() && kept[k] == r;
        assert(steps[k + 1] == TeardownStep::Destroy(r));
    }
    assert forall|r: Resource| steps.contains(#[trigger] destroy(r)) implies created.contains(
        r,
    ) by {
        let i = choose|i: int| 0 <= i < steps.len() && steps[i] == TeardownStep::Destroy(r);
        assert(i >= 1);
        assert(kept[i - 1] == r);
    }
    assert forall|i: int, j: int| 0 <= i < j < steps.len() implies #[trigger] steps[i]
        != #[trigger] steps[j] by {
        if i >= 1 {
            assert(destroyed_at(kept[i - 1]) < destroyed_at(kept[j - 1]));
        }
    }
    assert forall|i: int, j: int, user: Resource, used: Resource|
        0 <= i < steps.len() && 0 <= j < steps.len() && #[trigger] steps[i]
            == TeardownStep::Destroy(user) && #[trigger] steps[j] == TeardownStep::Destroy(used)
            && #[trigger] depends_on(user, used) implies i < j by {
        assert(kept[i - 1] == user && kept[j - 1] == used);
        if j <= i {
            if j < i {
                assert(destroyed_at(kept[j - 1]) < destroyed_at(kept[i - 1]));
            }
        }
    }
}

/// Whether a resource of the kind is among those that were created.
pub fn was_created(created: &Vec<Resource>, resource: Resource) -> (b: bool)
    ensures
        b == created@.contains(resource),
{
    let mut i: usize = 0;
    while i < created.len()
        invariant
            i <= created.len(),
            forall|k: int| 0 <= k < i ==> created@[k] != resource,
        decreases created.len() - i,
    {
        if created[i] == resource {
            return true;
        }
        i += 1;
    }
    false
}

/// The kinds of resource in the order in which they are destroyed.
pub fn teardown_order() -> (order: Vec<Resource>)
    ensures
        order@ == spec_teardown_order(),
{
    let mut order: Vec<Resource> = Vec::new();
    order.push(Resource::DescriptorPool);
    order.push(Resource::VertexBuffer);
    order.push(Resource::StagingBuffer);
    order.push(Resource::TextureView);
    order.push(Resource::Sampler);
    order.push(Resource::Texture);
    order.push(Resource::AcquireSemaphores);
    order.push(Resource::SubmitSemaphores);
    order.push(Resource::Fences);
    order.push(Resource::CommandPools);
    order.push(Resource::Pipeline);
    order.push(Resource::PipelineLayout);
    order.push(Resource::DescriptorSetLayout);
    order.push(Resource::Framebuffers);
    order.push(Resource::RenderPass);
    order.push(Resource::FrameViews);
    order.push(Resource::Swapchain);
    order.push(Resource::VertexMemory);
    order.push(Resource::StagingMemory);
    order.push(Resource::TextureMemory);
    assert(order@ =~= spec_teardown_order());
    order
}

/// The application.
#[derive(Debug, PartialEq, Eq)]
pub struct HelloTriangleApplication {
    context: DeviceContext,
    running: bool,
}

impl HelloTriangleApplication {
    /// The device context that the application runs on.
    pub closed spec fn spec_context(&self) -> DeviceContext {
        self.context
    }

    /// Whether the loop of the application is still to run.
    pub closed spec fn spec_running(&self) -> bool {
        self.running
    }

    /// Sets the application up on the first adapter that can draw and can
    /// present to the surface. Its loop is then still to run.
    pub fn init(adapters: &Vec<Adapter>) -> (application: Result<
        HelloTriangleApplication,
        SetupError,
    >)
        ensures
            application is Ok <==> first_compatible_adapter(adapter_models(adapters@))
                < adapters.len(),
            application matches Ok(a) ==> a.spec_running() && a.spec_context()@
                == selected_context(adapter_models(adapters@)),
            application matches Err(e) ==> e == SetupError::NoCompatibleAdapter,
    {
        match DeviceContext::select(adapters) {
            Ok(context) => Ok(HelloTriangleApplication { context, running: true }),
            Err(e) => Err(e),
        }
    }

    /// The device context that the application runs on.
    pub fn context(&self) -> (context: &DeviceContext)
        ensures
            *context == self.spec_context(),
    {
        &self.context
    }

    /// Whether the loop of the application is still to run.
    pub fn running(&self) -> (b: bool)
        ensures
            b == self.spec_running(),
    {
        self.running
    }

    /// Takes the events that the window system has queued since the last
    /// call, and says whether the loop goes on. It goes on until an event
    /// asks for the end; after that it never goes on again.
    pub fn main_loop(&mut self, events: &Vec<WindowEvent>) -> (running: bool)
        ensures
            running == final(self).spec_running(),
            final(self).spec_running() == (old(self).spec_running() && !any_cancels(events@)),
            final(self).spec_context() == old(self).spec_context(),
    {
        let mut i: usize = 0;
        while i < events.len()
            invariant
                i <= events.len(),
                self.spec_context() == old(self).spec_context(),
                self.spec_running() == (old(self).spec_running() && !any_cancels(
                    events@.take(i as int),
                )),
            decreases events.len() - i,
        {
            let ghost before = events@.take(i as int);
            let ghost after = events@.take(i + 1);
            if events[i].cancels() {
                self.running = false;
                assert(after[i as int].spec_cancels());
            } else {
                assert(any_cancels(after) == any_cancels(before)) by {
                    if any_cancels(after) {
                        let k = choose|k: int| 0 <= k < after.len() && (#[trigger] after[k])
                            .spec_cancels();
                        assert(before[k] == after[k]);
                    }
                    if any_cancels(before) {
                        let k = choose|k: int| 0 <= k < before.len() && (#[trigger] before[k])
                            .spec_cancels();
                        assert(after[k] == before[k]);
                    }
                }
            }
            i += 1;
        }
        assert(events@.take(events.len() as int) =~= events@);
        self.running
    }

    /// Chooses the memory for a resource among the memory types of the
    /// application's adapter, as [`ResourceRequest::plan`] does.
    pub fn plan_binding(&self, request: ResourceRequest, requirements: Requirements) -> (planned:
        Result<PlannedAllocation, SetupError>)
        ensures
            planned is Ok <==> first_suitable(
                self.spec_context()@.memory_types,
                requirements.type_mask,
                request.required,
            ) < self.spec_context()@.memory_types.len(),
            planned matches Ok(p) ==> p@ == binding_for(
                request,
                self.spec_context()@.memory_types,
                requirements,
                first_suitable(
                    self.spec_context()@.memory_types,
                    requirements.type_mask,
                    request.required,
                ),
            ) && p@.wf(),
            planned matches Err(e) ==> e == SetupError::NoSuitableMemoryType,
    {
        match request.plan(requirements, self.context.memory_types()) {
            Ok(planned) => Ok(planned),
            Err(e) => Err(SetupError::from_alloc(e)),
        }
    }

    /// Lays a texture out for the upload, with the copy-pitch alignment of
    /// the application's device.
    pub fn plan_upload(&self, texture: Texture) -> (upload: Result<Upload, SetupError>)
        ensures
            upload is Ok <==> UploadLayout::spec_fits(
                texture@.width,
                texture@.height,
                self.spec_context()@.limits.min_buffer_copy_pitch_alignment,
            ),
            upload matches Ok(u) ==> u@ == (UploadModel {
                texture: texture@,
                layout: UploadLayout::spec_new(
                    texture@.width,
                    texture@.height,
                    self.spec_context()@.limits.min_buffer_copy_pitch_alignment,
                ),
            }) && u@.wf(),
            upload matches Err(e) ==> e == SetupError::UploadLayoutFailed,
    {
        match Upload::plan(texture, self.context.limits().min_buffer_copy_pitch_alignment) {
            Ok(upload) => Ok(upload),
            Err(e) => Err(SetupError::from_upload(e)),
        }
    }

    /// The scheduler of the application's loop, with the usual number of
    /// frame slots, for a swapchain of `images` images.
    pub fn start_frames(&self, images: usize, extent: Extent) -> (scheduler: Option<
        FrameScheduler,
    >)
        ensures
            scheduler is Some <==> images >= 1 && images < usize::MAX,
            scheduler matches Some(f) ==> f@ == SchedulerModel::initial(
                DEFAULT_FRAME_SLOTS as nat,
                images as nat,
                extent,
            ) && f@.wf(),
    {
        FrameScheduler::new(DEFAULT_FRAME_SLOTS, images, extent)
    }

    /// The event that opens the next iteration of the loop: the events that
    /// the window system has queued are taken as by `main_loop`, and the
    /// iteration is cancelled exactly where the loop is not to go on.
    pub fn tick(&mut self, events: &Vec<WindowEvent>) -> (event: Event)
        ensures
            event == (Event::Tick { cancelled: !final(self).spec_running() }),
            final(self).spec_running() == (old(self).spec_running() && !any_cancels(events@)),
            final(self).spec_context() == old(self).spec_context(),
    {
        let running = self.main_loop(events);
        Event::Tick { cancelled: !running }
    }

    /// The steps that take the application down, given the kinds of
    /// resource that setup created: all of them after a run, fewer after a
    /// setup that failed. The first step waits for the device to be idle;
    /// then exactly what was created is destroyed, in the order of teardown.
    pub fn cleanup(created: &Vec<Resource>) -> (steps: Vec<TeardownStep>)
        ensures
            steps@ == spec_teardown(created@),
    {
        let order = teardown_order();
        let mut steps: Vec<TeardownStep> = Vec::new();
        steps.push(TeardownStep::WaitIdle);
        let mut i: usize = 0;
        assert(order@.take(0) =~= Seq::<Resource>::empty());
        while i < order.len()
            invariant
                i <= order.len(),
                order@ == spec_teardown_order(),
                steps@ == seq![TeardownStep::WaitIdle] + destroy_all(
                    created_of(order@.take(i as int), created@),
                ),
            decreases order.len() - i,
        {
            let resource = order[i];
            let ghost before = created_of(order@.take(i as int), created@);
            proof {
                assert(order@.take(i + 1).drop_last() =~= order@.take(i as int));
                assert(order@.take(i + 1).last() == resource);
            }
            if was_created(created, resource) {
                steps.push(TeardownStep::Destroy(resource));
                proof {
                    assert(destroy_all(before.push(resource)) =~= destroy_all(before).push(
                        destroy(resource),
                    ));
                    assert(steps@ =~= seq![TeardownStep::WaitIdle] + destroy_all(
                        before.push(resource),
                    ));
                }
            }
            i += 1;
        }
        proof {
            assert(order@.take(order@.len() as int) =~= order@);
        }
        steps
    }
}

} // verus!
