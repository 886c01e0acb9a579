//! The pipeline builder: the render pass, the vertex layout and the fixed
//! state of the graphics pipeline, and the order in which the pipeline is
//! built from the compiled shaders.

use crate::barrier::{
    spec_next_layout,
    ImageLayout,
    ImageRole,
    ACCESS_COLOR_ATTACHMENT_READ,
    ACCESS_COLOR_ATTACHMENT_WRITE,
    ACCESS_NONE,
    STAGE_COLOR_ATTACHMENT_OUTPUT,
};
use vstd::prelude::*;

verus! {

/// Bytes of one vertex: a position and a texture coordinate.
pub const VERTEX_STRIDE: u32 = 16;

/// Bytes of one attribute: two 32-bit floats.
pub const ATTRIBUTE_BYTES: u32 = 8;

/// Number of vertices of the quad: two triangles, no index buffer.
pub const QUAD_VERTEX_COUNT: u32 = 6;

/// All four channels are written.
pub const COLOR_MASK_ALL: u8 = 0xF;

/// What happens to an attachment when the render pass begins.
#[derive(Clone, Copy, Debug, PartialEq, Eq, Structural)]
pub enum LoadOp {
    Load,
    Clear,
    DontCare,
}

/// What happens to an attachment when the render pass ends.
#[derive(Clone, Copy, Debug, PartialEq, Eq, Structural)]
pub enum StoreOp {
    Store,
    DontCare,
}

/// The color attachment of the render pass.
#[derive(Clone, Copy, Debug, PartialEq, Eq, Structural)]
pub struct Attachment {
    pub samples: u8,
    pub load: LoadOp,
    pub store: StoreOp,
    pub stencil_load: LoadOp,
    pub stencil_store: StoreOp,
    /// The layout in which the render pass finds the image.
    pub initial_layout: ImageLayout,
    /// The layout in which the render pass leaves the image.
    pub final_layout: ImageLayout,
}

/// One end of a subpass dependency.
#[derive(Clone, Copy, Debug, PartialEq, Eq, Structural)]
pub enum SubpassRef {
    /// What comes before or after the render pass.
    External,
    /// The subpass with this index.
    Pass(usize),
}

/// An ordering between what two subpasses do.
#[derive(Clone, Copy, Debug, PartialEq, Eq, Structural)]
pub struct SubpassDependency {
    pub from: SubpassRef,
    pub to: SubpassRef,
    pub src_stage: u32,
    pub dst_stage: u32,
    pub src_access: u32,
    pub dst_access: u32,
}

/// The render pass: one color attachment, one subpass that writes to it, and
/// one dependency.
#[derive(Clone, Copy, Debug, PartialEq, Eq, Structural)]
pub struct RenderPassDesc {
    pub attachment: Attachment,
    /// The attachment that the subpass writes its colors to.
    pub color_attachment: usize,
    /// The layout of that attachment during the subpass.
    pub color_layout: ImageLayout,
    pub dependency: SubpassDependency,
}

/// The render pass. The attachment is cleared at the start and stored at the
/// end, its stencil aspect is of no interest, and it goes from `Undefined` to
/// `Present`. The dependency orders the subpass after whatever came before at
/// the color-attachment-output stage, so that the pipeline can be used right
/// after an image was acquired, without a wait on the host.
pub open spec fn spec_render_pass() -> RenderPassDesc {
    RenderPassDesc {
        attachment: Attachment {
            samples: 1,
            load: LoadOp::Clear,
            store: StoreOp::Store,
            stencil_load: LoadOp::DontCare,
            stencil_store: StoreOp::DontCare,
            initial_layout: ImageLayout::Undefined,
            final_layout: ImageLayout::Present,
        },
        color_attachment: 0,
        color_layout: ImageLayout::ColorAttachmentOptimal,
        dependency: SubpassDependency {
            from: SubpassRef::External,
            to: SubpassRef::Pass(0),
            src_stage: STAGE_COLOR_ATTACHMENT_OUTPUT,
            dst_stage: STAGE_COLOR_ATTACHMENT_OUTPUT,
            src_access: ACCESS_NONE,
            dst_access: ACCESS_COLOR_ATTACHMENT_READ | ACCESS_COLOR_ATTACHMENT_WRITE,
        },
    }
}

/// The description of the render pass.
pub fn render_pass() -> (desc: RenderPassDesc)
    ensures
        desc == spec_render_pass(),
{
    RenderPassDesc {
        attachment: Attachment {
            samples: 1,
            load: LoadOp::Clear,
            store: StoreOp::Store,
            stencil_load: LoadOp::DontCare,
            stencil_store: StoreOp::DontCare,
            initial_layout: ImageLayout::Undefined,
            final_layout: ImageLayout::Present,
        },
        color_attachment: 0,
        color_layout: ImageLayout::ColorAttachmentOptimal,
        dependency: SubpassDependency {
            from: SubpassRef::External,
            to: SubpassRef::Pass(0),
            src_stage: STAGE_COLOR_ATTACHMENT_OUTPUT,
            dst_stage: STAGE_COLOR_ATTACHMENT_OUTPUT,
            src_access: ACCESS_NONE,
            dst_access: ACCESS_COLOR_ATTACHMENT_READ | ACCESS_COLOR_ATTACHMENT_WRITE,
        },
    }
}

/// In every frame the presentable image goes through its layouts in their
/// order: the render pass finds it in `Undefined`, the subpass has it in
/// `ColorAttachmentOptimal`, and the render pass leaves it in `Present`.
pub proof fn render_pass_follows_layout_sequence()
    ensures
        spec_render_pass().attachment.initial_layout == ImageLayout::Undefined,
        spec_next_layout(ImageRole::PresentTarget, spec_render_pass().attachment.initial_layout)
            == Some(spec_render_pass().color_layout),
        spec_next_layout(ImageRole::PresentTarget, spec_render_pass().color_layout) == Some(
            spec_render_pass().attachment.final_layout,
        ),
        spec_next_layout(ImageRole::PresentTarget, spec_render_pass().attachment.final_layout)
            is None,
{
}

/// The format of a vertex attribute.
#[derive(Clone, Copy, Debug, PartialEq, Eq, Structural)]
pub enum VertexFormat {
    /// Two 32-bit floats.
    Rg32Float,
}

/// The vertex buffer as the pipeline reads it.
#[derive(Clone, Copy, Debug, PartialEq, Eq, Structural)]
pub struct VertexBufferDesc {
    pub binding: u32,
    /// Bytes from one vertex to the next.
    pub stride: u32,
    /// Whether the buffer advances with each instance instead of each vertex.
    pub per_instance: bool,
}

/// One attribute of a vertex.
#[derive(Clone, Copy, Debug, PartialEq, Eq, Structural)]
pub struct AttributeDesc {
    pub location: u32,
    pub binding: u32,
    pub format: VertexFormat,
    /// Bytes from the start of the vertex to the attribute.
    pub offset: u32,
}

/// How the vertices are put together.
#[derive(Clone, Copy, Debug, PartialEq, Eq, Structural)]
pub enum Topology {
    PointList,
    LineList,
    TriangleList,
    TriangleStrip,
}

/// How a polygon is filled.
#[derive(Clone, Copy, Debug, PartialEq, Eq, Structural)]
pub enum PolygonMode {
    Point,
    Line,
    Fill,
}

/// How a color is blended with what the target holds.
#[derive(Clone, Copy, Debug, PartialEq, Eq, Structural)]
pub enum Blend {
    Off,
    /// Standard alpha blending.
    Alpha,
}

/// The fixed state of the graphics pipeline.
#[derive(Clone, Copy, Debug, PartialEq, Eq, Structural)]
pub struct PipelineDesc {
    pub topology: Topology,
    pub polygon_mode: PolygonMode,
    /// The channels of the one color target that are written.
    pub color_mask: u8,
    pub blend: Blend,
    pub vertex_buffer: VertexBufferDesc,
    /// The subpass of the render pass in which the pipeline is used.
    pub subpass: usize,
}

/// The pipeline: lists of triangles, filled, blended by alpha into one color
/// target, with vertices of 16 bytes from binding 0.
pub open spec fn spec_pipeline() -> PipelineDesc {
    PipelineDesc {
        topology: Topology::TriangleList,
        polygon_mode: PolygonMode::Fill,
        color_mask: COLOR_MASK_ALL,
        blend: Blend::Alpha,
        vertex_buffer: VertexBufferDesc { binding: 0, stride: VERTEX_STRIDE, per_instance: false },
        subpass: 0,
    }
}

/// The attributes of a vertex: at location 0 the position, at the start of
/// the vertex; at location 1 the texture coordinate, 8 bytes in.
pub open spec fn spec_attributes() -> Seq<AttributeDesc> {
    seq![
        AttributeDesc { location: 0, binding: 0, format: VertexFormat::Rg32Float, offset: 0 },
        AttributeDesc { location: 1, binding: 0, format: VertexFormat::Rg32Float, offset: 8 },
    ]
}

impl VertexFormat {
    /// Bytes of an attribute of this format.
    pub open spec fn spec_bytes(self) -> u32 {
        ATTRIBUTE_BYTES
    }

    /// Bytes of an attribute of this format.
    pub fn bytes(&self) -> (bytes: u32)
        ensures
            bytes == self.spec_bytes(),
    {
        ATTRIBUTE_BYTES
    }
}

/// The description of the pipeline's fixed state.
pub fn pipeline() -> (desc: PipelineDesc)
    ensures
        desc == spec_pipeline(),
{
    PipelineDesc {
        topology: Topology::TriangleList,
        polygon_mode: PolygonMode::Fill,
        color_mask: COLOR_MASK_ALL,
        blend: Blend::Alpha,
        vertex_buffer: VertexBufferDesc { binding: 0, stride: VERTEX_STRIDE, per_instance: false },
        subpass: 0,
    }
}

/// The attributes of a vertex.
pub fn attributes() -> (list: Vec<AttributeDesc>)
    ensures
        list@ == spec_attributes(),
{
    let mut list: Vec<AttributeDesc> = Vec::new();
    list.push(
        AttributeDesc { location: 0, binding: 0, format: VertexFormat::Rg32Float, offset: 0 },
    );
    list.push(
        AttributeDesc { location: 1, binding: 0, format: VertexFormat::Rg32Float, offset: 8 },
    );
    assert(list@ =~= spec_attributes());
    list
}

/// Whether the attributes lie one after the other from the byte `start` of a
/// vertex on, and end with the vertex.
pub open spec fn attributes_tile(attributes: Seq<AttributeDesc>, start: int, stride: int) -> bool
    decreases attributes.len(),
{
    if attributes.len() == 0 {
        start == stride
    } else {
        attributes[0].offset == start && attributes_tile(
            attributes.skip(1),
            start + attributes[0].format.spec_bytes(),
            stride,
        )
    }
}

/// The attributes fill the vertex: the first begins with it, each begins
/// where the one before ends, and the last ends with it. They come from the
/// binding of the vertex buffer, each at a location of its own.
pub proof fn attributes_fill_the_vertex()
    ensures
        attributes_tile(spec_attributes(), 0, spec_pipeline().vertex_buffer.stride as int),
        forall|i: int|
            0 <= i < spec_attributes().len() ==> (#[trigger] spec_attributes()[i]).binding
                == spec_pipeline().vertex_buffer.binding && spec_attributes()[i].location == i,
{
    let all = spec_attributes();
    let second = all.skip(1);
    reveal_with_fuel(attributes_tile, 3);
    assert(second[0] == all[1]);
    assert(second.skip(1) =~= Seq::<AttributeDesc>::empty());
}

/// Bytes of the vertex buffer that holds `vertices` vertices.
pub open spec fn spec_vertex_buffer_size(vertices: u32) -> int {
    vertices * VERTEX_STRIDE
}

/// Bytes of the vertex buffer that holds `vertices` vertices.
pub fn vertex_buffer_size(vertices: u32) -> (bytes: u64)
    ensures
        bytes == spec_vertex_buffer_size(vertices),
{
    let stride = VERTEX_STRIDE as u64;
    assert(vertices * stride <= 0xFFFF_FFFF * 16) by (nonlinear_arith)
        requires
            vertices <= 0xFFFF_FFFF,
            stride == 16,
    ;
    vertices as u64 * stride
}

/// The quad takes 96 bytes.
pub proof fn quad_takes_96_bytes()
    ensures
        spec_vertex_buffer_size(QUAD_VERTEX_COUNT) == 96,
{
}

/// A shader stage of the pipeline.
#[derive(Clone, Copy, Debug, PartialEq, Eq, Structural)]
pub enum ShaderStage {
    Vertex,
    Fragment,
}

/// One step of building the pipeline.
#[derive(Clone, Copy, Debug, PartialEq, Eq, Structural)]
pub enum BuildStep {
    /// Make a shader module of the compiled binary of a stage.
    CreateShaderModule(ShaderStage),
    /// Create the graphics pipeline.
    CreatePipeline,
    /// Destroy the shader module of a stage.
    DestroyShaderModule(ShaderStage),
}

/// The steps of the build: both modules are made, the pipeline is created,
/// and both modules are destroyed at once, whether the creation succeeded or
/// not.
pub open spec fn spec_build_steps() -> Seq<BuildStep> {
    seq![
        BuildStep::CreateShaderModule(ShaderStage::Vertex),
        BuildStep::CreateShaderModule(ShaderStage::Fragment),
        BuildStep::CreatePipeline,
        BuildStep::DestroyShaderModule(ShaderStage::Vertex),
        BuildStep::DestroyShaderModule(ShaderStage::Fragment),
    ]
}

/// The steps of the build, in their order.
pub fn build_steps() -> (steps: Vec<BuildStep>)
    ensures
        steps@ == spec_build_steps(),
{
    let mut steps: Vec<BuildStep> = Vec::new();
    steps.push(BuildStep::CreateShaderModule(ShaderStage::Vertex));
    steps.push(BuildStep::CreateShaderModule(ShaderStage::Fragment));
    steps.push(BuildStep::CreatePipeline);
    steps.push(BuildStep::DestroyShaderModule(ShaderStage::Vertex));
    steps.push(BuildStep::DestroyShaderModule(ShaderStage::Fragment));
    assert(steps@ =~= spec_build_steps());
    steps
}

/// Each shader module exists when the pipeline is created, and is destroyed
/// after that, once; nothing follows the destruction of the modules.
pub proof fn modules_live_around_creation(stage: ShaderStage)
    ensures
        exists|made: int, created: int, destroyed: int|
            0 <= made < created < destroyed < spec_build_steps().len()
                && #[trigger] spec_build_steps()[made] == BuildStep::CreateShaderModule(stage)
                && #[trigger] spec_build_steps()[created] == BuildStep::CreatePipeline
                && #[trigger] spec_build_steps()[destroyed] == BuildStep::DestroyShaderModule(
                stage,
            ),
        forall|i: int|
            3 <= i < spec_build_steps().len() ==> #[trigger] spec_build_steps()[i]
                is DestroyShaderModule,
{
    let steps = spec_build_steps();
    match stage {
        ShaderStage::Vertex => {
            assert(steps[0] == BuildStep::CreateShaderModule(stage) && steps[2]
                == BuildStep::CreatePipeline && steps[3] == BuildStep::DestroyShaderModule(stage));
        },
        ShaderStage::Fragment => {
            assert(steps[1] == BuildStep::CreateShaderModule(stage) && steps[2]
                == BuildStep::CreatePipeline && steps[4] == BuildStep::DestroyShaderModule(stage));
        },
    }
}

} // verus!
