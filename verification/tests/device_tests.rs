use image_presenter::application::{
    teardown_order, was_created, HelloTriangleApplication, Key, Resource, TeardownStep,
    WindowEvent, WINDOW_HEIGHT, WINDOW_WIDTH,
};
use image_presenter::frame::Event;
use image_presenter::device::{
    find_compatible_family, Adapter, DeviceContext, Limits, QueueFamily,
};
use image_presenter::error::{Failure, SetupError, SetupStep, Severity};
use image_presenter::memory::{
    staging_buffer, texture_image, AllocError, MemoryProperties, MemoryType, Requirements,
};
use image_presenter::swapchain::Extent;
use image_presenter::texture::Texture;
use image_presenter::texture::TextureError;
use image_presenter::upload::UploadError;

fn family(graphics: bool, presentable: bool, max_queues: usize) -> QueueFamily {
    QueueFamily { graphics, presentable, max_queues }
}

fn adapter(queue_families: Vec<QueueFamily>, alignment: u64, bits: u16) -> Adapter {
    Adapter {
        queue_families,
        memory_types: vec![MemoryType {
            properties: MemoryProperties::from_bits(bits),
            heap_index: 0,
        }],
        limits: Limits { min_buffer_copy_pitch_alignment: alignment },
    }
}

#[test]
fn family_must_draw_present_and_have_a_queue() {
    assert!(family(true, true, 1).compatible());
    assert!(!family(false, true, 1).compatible());
    assert!(!family(true, false, 1).compatible());
    assert!(!family(true, true, 0).compatible());
}

#[test]
fn first_compatible_family_is_found() {
    let families =
        vec![
            family(true, false, 4),
            family(false, true, 1),
            family(true, true, 2),
            family(true, true, 8),
        ];
    assert_eq!(find_compatible_family(&families), 2);
    assert_eq!(find_compatible_family(&families[..2].to_vec()), 2);
    assert_eq!(find_compatible_family(&Vec::new()), 0);
}

#[test]
fn first_compatible_adapter_is_selected() {
    let adapters = vec![
        adapter(vec![family(true, false, 1)], 1, 1),
        adapter(vec![family(false, true, 1), family(true, true, 1)], 256, 6),
        adapter(vec![family(true, true, 1)], 4, 1),
    ];
    let context = DeviceContext::select(&adapters).unwrap();
    assert_eq!(context.adapter(), 1);
    assert_eq!(context.queue_family(), 1);
    assert_eq!(context.limits(), Limits { min_buffer_copy_pitch_alignment: 256 });
    assert_eq!(context.memory_types(), &adapters[1].memory_types);
}

#[test]
fn selection_fails_without_compatible_adapter() {
    assert_eq!(DeviceContext::select(&Vec::new()), Err(SetupError::NoCompatibleAdapter));
    let adapters = vec![
        adapter(vec![family(true, false, 1)], 1, 1),
        adapter(Vec::new(), 1, 1),
        adapter(vec![family(true, true, 0)], 1, 1),
    ];
    assert_eq!(DeviceContext::select(&adapters), Err(SetupError::NoCompatibleAdapter));
    assert_eq!(
        HelloTriangleApplication::init(&adapters),
        Err(SetupError::NoCompatibleAdapter)
    );
}

#[test]
fn application_starts_running_on_selected_adapter() {
    let adapters =
        vec![
            adapter(vec![family(true, false, 1)], 1, 1),
            adapter(vec![family(true, true, 1)], 64, 6),
        ];
    let application = HelloTriangleApplication::init(&adapters).unwrap();
    assert!(application.running());
    assert_eq!(application.context().adapter(), 1);
    assert_eq!(application.context().queue_family(), 0);
    assert_eq!(application.context().limits().min_buffer_copy_pitch_alignment, 64);
    assert_eq!((WINDOW_WIDTH, WINDOW_HEIGHT), (800, 600));
}

fn running_application() -> HelloTriangleApplication {
    HelloTriangleApplication::init(&vec![adapter(vec![family(true, true, 1)], 4, 1)]).unwrap()
}

#[test]
fn close_request_and_escape_cancel() {
    assert!(WindowEvent::CloseRequested.cancels());
    assert!(WindowEvent::KeyboardInput { key: Some(Key::Escape) }.cancels());
    assert!(!WindowEvent::KeyboardInput { key: Some(Key::Other) }.cancels());
    assert!(!WindowEvent::KeyboardInput { key: None }.cancels());
    assert!(!WindowEvent::Other.cancels());
}

#[test]
fn main_loop_runs_until_cancelled() {
    let mut application = running_application();
    assert!(application.main_loop(&Vec::new()));
    assert!(application.main_loop(&vec![
        WindowEvent::Other,
        WindowEvent::KeyboardInput { key: Some(Key::Other) }
    ]));
    assert!(application.running());
    assert!(!application.main_loop(&vec![
        WindowEvent::Other,
        WindowEvent::KeyboardInput { key: Some(Key::Escape) },
        WindowEvent::Other
    ]));
    assert!(!application.running());
    assert!(!application.main_loop(&Vec::new()));
    assert!(!application.main_loop(&vec![WindowEvent::Other]));

    let mut application = running_application();
    assert!(!application.main_loop(&vec![WindowEvent::CloseRequested]));
}

fn place(steps: &[TeardownStep], resource: Resource) -> usize {
    let found: Vec<usize> = steps
        .iter()
        .enumerate()
        .filter(|(_, step)| **step == TeardownStep::Destroy(resource))
        .map(|(i, _)| i)
        .collect();
    assert_eq!(found.len(), 1);
    found[0]
}

const DEPENDENCIES: [(Resource, Resource); 14] = [
    (Resource::DescriptorPool, Resource::DescriptorSetLayout),
    (Resource::DescriptorPool, Resource::TextureView),
    (Resource::DescriptorPool, Resource::Sampler),
    (Resource::TextureView, Resource::Texture),
    (Resource::Sampler, Resource::Texture),
    (Resource::VertexBuffer, Resource::VertexMemory),
    (Resource::StagingBuffer, Resource::StagingMemory),
    (Resource::Texture, Resource::TextureMemory),
    (Resource::Pipeline, Resource::PipelineLayout),
    (Resource::Pipeline, Resource::RenderPass),
    (Resource::PipelineLayout, Resource::DescriptorSetLayout),
    (Resource::Framebuffers, Resource::RenderPass),
    (Resource::Framebuffers, Resource::FrameViews),
    (Resource::FrameViews, Resource::Swapchain),
];

#[test]
fn cleanup_after_a_run_destroys_everything_once_dependents_first() {
    let order = teardown_order();
    assert_eq!(order.len(), 20);
    let steps = HelloTriangleApplication::cleanup(&order);
    assert_eq!(steps.len(), 21);
    assert_eq!(steps[0], TeardownStep::WaitIdle);
    assert!(steps[1..].iter().all(|step| *step != TeardownStep::WaitIdle));
    for (i, resource) in order.iter().enumerate() {
        assert_eq!(steps[i + 1], TeardownStep::Destroy(*resource));
    }
    for (user, used) in DEPENDENCIES {
        assert!(place(&steps, user) < place(&steps, used));
    }
    assert!(place(&steps, Resource::Sampler) < place(&steps, Resource::Texture));
    assert!(place(&steps, Resource::TextureView) < place(&steps, Resource::Texture));
}

#[test]
fn cleanup_after_aborted_setup_destroys_only_what_was_made() {
    assert_eq!(HelloTriangleApplication::cleanup(&Vec::new()), vec![TeardownStep::WaitIdle]);
    let created = vec![
        Resource::CommandPools,
        Resource::DescriptorSetLayout,
        Resource::DescriptorPool,
        Resource::VertexBuffer,
        Resource::VertexMemory,
        Resource::StagingBuffer,
        Resource::StagingMemory,
        Resource::Texture,
    ];
    assert_eq!(
        HelloTriangleApplication::cleanup(&created),
        vec![
            TeardownStep::WaitIdle,
            TeardownStep::Destroy(Resource::DescriptorPool),
            TeardownStep::Destroy(Resource::VertexBuffer),
            TeardownStep::Destroy(Resource::StagingBuffer),
            TeardownStep::Destroy(Resource::Texture),
            TeardownStep::Destroy(Resource::CommandPools),
            TeardownStep::Destroy(Resource::DescriptorSetLayout),
            TeardownStep::Destroy(Resource::VertexMemory),
            TeardownStep::Destroy(Resource::StagingMemory),
        ]
    );
}

#[test]
fn cleanup_of_any_prefix_of_setup_keeps_to_what_was_made() {
    let setup_order = [
        Resource::CommandPools,
        Resource::DescriptorSetLayout,
        Resource::DescriptorPool,
        Resource::VertexBuffer,
        Resource::VertexMemory,
        Resource::StagingBuffer,
        Resource::StagingMemory,
        Resource::Texture,
        Resource::TextureMemory,
        Resource::TextureView,
        Resource::Sampler,
        Resource::Swapchain,
        Resource::RenderPass,
        Resource::FrameViews,
        Resource::Framebuffers,
        Resource::AcquireSemaphores,
        Resource::SubmitSemaphores,
        Resource::Fences,
        Resource::PipelineLayout,
        Resource::Pipeline,
    ];
    for made in 0..=setup_order.len() {
        let created = setup_order[..made].to_vec();
        let steps = HelloTriangleApplication::cleanup(&created);
        assert_eq!(steps[0], TeardownStep::WaitIdle);
        assert_eq!(steps.len(), made + 1);
        for resource in &setup_order[..made] {
            assert!(was_created(&created, *resource));
            place(&steps, *resource);
        }
        for resource in &setup_order[made..] {
            assert!(!was_created(&created, *resource));
            assert!(!steps.contains(&TeardownStep::Destroy(*resource)));
        }
        for (user, used) in DEPENDENCIES {
            if created.contains(&user) && created.contains(&used) {
                assert!(place(&steps, user) < place(&steps, used));
            }
        }
    }
}

#[test]
fn cleanup_names_each_kind_once_even_if_told_twice() {
    let created = vec![Resource::Fences, Resource::Sampler, Resource::Fences];
    assert_eq!(
        HelloTriangleApplication::cleanup(&created),
        vec![
            TeardownStep::WaitIdle,
            TeardownStep::Destroy(Resource::Sampler),
            TeardownStep::Destroy(Resource::Fences),
        ]
    );
}

#[test]
fn tick_opens_an_iteration_or_cancels_it() {
    let mut application = running_application();
    assert_eq!(application.tick(&Vec::new()), Event::Tick { cancelled: false });
    assert_eq!(
        application.tick(&vec![WindowEvent::KeyboardInput { key: Some(Key::Other) }]),
        Event::Tick { cancelled: false }
    );
    assert!(application.running());
    assert_eq!(
        application.tick(&vec![WindowEvent::Other, WindowEvent::CloseRequested]),
        Event::Tick { cancelled: true }
    );
    assert!(!application.running());
    assert_eq!(application.tick(&Vec::new()), Event::Tick { cancelled: true });
}

#[test]
fn setup_failures_are_fatal_and_loop_failures_recoverable() {
    assert_eq!(Failure::Setup(SetupError::NoCompatibleAdapter).severity(), Severity::Fatal);
    assert_eq!(Failure::Setup(SetupError::UploadFenceWaitFailed).severity(), Severity::Fatal);
    assert_eq!(Failure::Acquire.severity(), Severity::Recoverable);
    assert_eq!(Failure::Present.severity(), Severity::Recoverable);
}

#[test]
fn component_errors_map_to_setup_errors() {
    assert_eq!(
        SetupError::from_alloc(AllocError::NoSuitableMemoryType),
        SetupError::NoSuitableMemoryType
    );
    assert_eq!(SetupError::from_alloc(AllocError::AllocationFailed), SetupError::AllocationFailed);
    assert_eq!(SetupError::from_upload(UploadError::Layout), SetupError::UploadLayoutFailed);
    assert_eq!(
        SetupError::from_upload(UploadError::StagingTooSmall),
        SetupError::UploadLayoutFailed
    );
    assert_eq!(SetupError::from_upload(UploadError::FenceWait), SetupError::UploadFenceWaitFailed);
    assert_eq!(SetupError::from_texture(TextureError::Decode), SetupError::TextureDecodeFailed);
    assert_eq!(
        SetupError::from_texture(TextureError::SizeMismatch),
        SetupError::TextureDecodeFailed
    );
}

#[test]
fn diagnostics_name_the_failed_step() {
    assert_eq!(
        SetupError::NoCompatibleAdapter.diagnostic(),
        "adapter selection: no compatible adapter"
    );
    assert_eq!(
        SetupError::NoSuitableMemoryType.diagnostic(),
        "resource binding: no suitable memory type"
    );
    assert_eq!(SetupError::AllocationFailed.diagnostic(), "resource binding: allocation failed");
    assert_eq!(SetupError::TextureDecodeFailed.diagnostic(), "texture: decoding failed");
    assert_eq!(SetupError::UploadLayoutFailed.diagnostic(), "upload: image cannot be staged");
    assert_eq!(SetupError::UploadFenceWaitFailed.diagnostic(), "upload: fence wait failed");
    assert_eq!(
        SetupError::ShaderCompileFailed.diagnostic(),
        "pipeline: shader compilation failed"
    );
    assert_eq!(SetupError::DescriptorSetupFailed.diagnostic(), "descriptors: creation failed");
    assert_eq!(SetupError::RenderPassCreationFailed.diagnostic(), "render pass: creation failed");
    assert_eq!(SetupError::PipelineCreationFailed.diagnostic(), "pipeline: creation failed");
    assert_eq!(
        SetupError::SwapchainSetupFailed.diagnostic(),
        "swapchain: surface allows no configuration"
    );
}

#[test]
fn failed_step_stops_setup_with_its_error() {
    let steps = [
        (SetupStep::ShaderCompilation, SetupError::ShaderCompileFailed),
        (SetupStep::DescriptorSetup, SetupError::DescriptorSetupFailed),
        (SetupStep::RenderPassCreation, SetupError::RenderPassCreationFailed),
        (SetupStep::PipelineCreation, SetupError::PipelineCreationFailed),
        (SetupStep::SwapchainSetup, SetupError::SwapchainSetupFailed),
        (SetupStep::UploadFenceWait, SetupError::UploadFenceWaitFailed),
    ];
    for (step, error) in steps {
        assert_eq!(step.outcome(true), Ok(()));
        assert_eq!(step.outcome(false), Err(error));
        assert_eq!(Failure::Setup(error).severity(), Severity::Fatal);
    }
}

#[test]
fn application_plans_bindings_among_its_adapters_memory_types() {
    let adapters = vec![adapter(vec![family(true, true, 1)], 64, 6)];
    let application = HelloTriangleApplication::init(&adapters).unwrap();
    let requirements = Requirements { size: 32, alignment: 4, type_mask: 0b1 };
    let planned = application.plan_binding(staging_buffer(32), requirements).unwrap();
    assert_eq!(planned.binding().memory.type_index, 0);
    assert_eq!(planned.binding().memory.properties, MemoryProperties::from_bits(6));
    assert_eq!(
        application.plan_binding(texture_image(2, 2), requirements),
        Err(SetupError::NoSuitableMemoryType)
    );
    assert_eq!(
        application.plan_binding(
            staging_buffer(32),
            Requirements { size: 32, alignment: 4, type_mask: 0b10 }
        ),
        Err(SetupError::NoSuitableMemoryType)
    );
}

#[test]
fn application_lays_uploads_out_for_its_device() {
    let adapters = vec![adapter(vec![family(true, true, 1)], 64, 6)];
    let application = HelloTriangleApplication::init(&adapters).unwrap();
    let upload = application.plan_upload(Texture::new(3, 2, vec![0; 24]).unwrap()).unwrap();
    assert_eq!(upload.layout().row_pitch, 64);
    assert_eq!(upload.layout().upload_size, 128);
    let unaligned = vec![adapter(vec![family(true, true, 1)], 0, 6)];
    let application = HelloTriangleApplication::init(&unaligned).unwrap();
    assert_eq!(
        application.plan_upload(Texture::new(3, 2, vec![0; 24]).unwrap()),
        Err(SetupError::UploadLayoutFailed)
    );
}

#[test]
fn application_starts_frames_with_three_slots() {
    let application = running_application();
    let extent = Extent { width: 800, height: 600 };
    let scheduler = application.start_frames(2, extent).unwrap();
    assert_eq!(scheduler.slots(), 3);
    assert_eq!(scheduler.images(), 2);
    assert_eq!(scheduler.extent(), extent);
    assert!(application.start_frames(0, extent).is_none());
}
