//! Image layouts, and the barriers that move an image from one to the next.
//!
//! An image goes through one of two sequences of layouts. The sampled texture
//! goes from `Undefined` over `TransferDstOptimal` to `ShaderReadOnlyOptimal`;
//! a presentable image goes, in every frame, from `Undefined` over
//! `ColorAttachmentOptimal` to `Present`.

use vstd::prelude::*;

verus! {

/// No access.
pub const ACCESS_NONE: u32 = 0;

/// Read access from a shader.
pub const ACCESS_SHADER_READ: u32 = 0x20;

/// Read access to a color attachment.
pub const ACCESS_COLOR_ATTACHMENT_READ: u32 = 0x80;

/// Write access to a color attachment.
pub const ACCESS_COLOR_ATTACHMENT_WRITE: u32 = 0x100;

/// Write access by a transfer.
pub const ACCESS_TRANSFER_WRITE: u32 = 0x1000;

/// The stage before any command is processed.
pub const STAGE_TOP_OF_PIPE: u32 = 0x1;

/// The stage of the fragment shader.
pub const STAGE_FRAGMENT_SHADER: u32 = 0x80;

/// The stage at which the colors leave the pipeline.
pub const STAGE_COLOR_ATTACHMENT_OUTPUT: u32 = 0x400;

/// The stage of copies.
pub const STAGE_TRANSFER: u32 = 0x1000;

/// The layout of an image, which determines what may be done with it.
#[derive(Clone, Copy, Debug, PartialEq, Eq, Structural)]
pub enum ImageLayout {
    /// No layout. The image must leave it before the device reads it.
    Undefined,
    /// The destination of a transfer.
    TransferDstOptimal,
    /// Read by shaders.
    ShaderReadOnlyOptimal,
    /// A color attachment of a framebuffer.
    ColorAttachmentOptimal,
    /// Ready for presentation.
    Present,
}

/// What an image is for.
#[derive(Clone, Copy, Debug, PartialEq, Eq, Structural)]
pub enum ImageRole {
    /// The texture that the fragment shader samples.
    SampledTexture,
    /// An image of the swapchain.
    PresentTarget,
}

/// A synchronization point in a command buffer: the image named by the
/// command leaves one access and layout for another, between two stages.
#[derive(Clone, Copy, Debug, PartialEq, Eq, Structural)]
pub struct ImageBarrier {
    pub from_access: u32,
    pub from_layout: ImageLayout,
    pub to_access: u32,
    pub to_layout: ImageLayout,
    pub src_stage: u32,
    pub dst_stage: u32,
}

/// The layout that follows `layout` in the sequence of an image with this
/// role, if any does.
pub open spec fn spec_next_layout(role: ImageRole, layout: ImageLayout) -> Option<ImageLayout> {
    match (role, layout) {
        (ImageRole::SampledTexture, ImageLayout::Undefined) => Some(
            ImageLayout::TransferDstOptimal,
        ),
        (ImageRole::SampledTexture, ImageLayout::TransferDstOptimal) => Some(
            ImageLayout::ShaderReadOnlyOptimal,
        ),
        (ImageRole::PresentTarget, ImageLayout::Undefined) => Some(
            ImageLayout::ColorAttachmentOptimal,
        ),
        (ImageRole::PresentTarget, ImageLayout::ColorAttachmentOptimal) => Some(
            ImageLayout::Present,
        ),
        _ => None,
    }
}

/// The layout that follows `layout` in the sequence of an image with this
/// role, if any does.
pub fn next_layout(role: ImageRole, layout: ImageLayout) -> (next: Option<ImageLayout>)
    ensures
        next == spec_next_layout(role, layout),
{
    match (role, layout) {
        (ImageRole::SampledTexture, ImageLayout::Undefined) => Some(
            ImageLayout::TransferDstOptimal,
        ),
        (ImageRole::SampledTexture, ImageLayout::TransferDstOptimal) => Some(
            ImageLayout::ShaderReadOnlyOptimal,
        ),
        (ImageRole::PresentTarget, ImageLayout::Undefined) => Some(
            ImageLayout::ColorAttachmentOptimal,
        ),
        (ImageRole::PresentTarget, ImageLayout::ColorAttachmentOptimal) => Some(
            ImageLayout::Present,
        ),
        _ => None,
    }
}

/// The access and the stage that belong to a layout of the texture: what the
/// barrier into that layout names as its destination, and the barrier out of
/// it as its source.
pub open spec fn spec_texture_scope(layout: ImageLayout) -> (u32, u32) {
    match layout {
        ImageLayout::TransferDstOptimal => (ACCESS_TRANSFER_WRITE, STAGE_TRANSFER),
        ImageLayout::ShaderReadOnlyOptimal => (ACCESS_SHADER_READ, STAGE_FRAGMENT_SHADER),
        _ => (ACCESS_NONE, STAGE_TOP_OF_PIPE),
    }
}

/// The barrier that takes the texture from `from` to the layout that follows
/// it, with the access and stage pair of each of the two layouts.
pub open spec fn spec_texture_barrier(from: ImageLayout) -> Option<ImageBarrier> {
    match spec_next_layout(ImageRole::SampledTexture, from) {
        Some(to) => Some(
            ImageBarrier {
                from_access: spec_texture_scope(from).0,
                from_layout: from,
                to_access: spec_texture_scope(to).0,
                to_layout: to,
                src_stage: spec_texture_scope(from).1,
                dst_stage: spec_texture_scope(to).1,
            },
        ),
        None => None,
    }
}

/// The access and the stage that belong to a layout of the texture.
fn texture_scope(layout: ImageLayout) -> (scope: (u32, u32))
    ensures
        scope == spec_texture_scope(layout),
{
    match layout {
        ImageLayout::TransferDstOptimal => (ACCESS_TRANSFER_WRITE, STAGE_TRANSFER),
        ImageLayout::ShaderReadOnlyOptimal => (ACCESS_SHADER_READ, STAGE_FRAGMENT_SHADER),
        _ => (ACCESS_NONE, STAGE_TOP_OF_PIPE),
    }
}

/// The barrier that takes the texture out of the layout `from`, or `None`
/// where the texture's sequence ends with `from` or does not hold it.
pub fn texture_barrier(from: ImageLayout) -> (barrier: Option<ImageBarrier>)
    ensures
        barrier == spec_texture_barrier(from),
{
    match next_layout(ImageRole::SampledTexture, from) {
        Some(to) => {
            let source = texture_scope(from);
            let target = texture_scope(to);
            Some(
                ImageBarrier {
                    from_access: source.0,
                    from_layout: from,
                    to_access: target.0,
                    to_layout: to,
                    src_stage: source.1,
                    dst_stage: target.1,
                },
            )
        },
        None => None,
    }
}

/// The two barriers of the upload, written out: from no access in no layout
/// at the top of the pipe to transfer writes in the transfer layout, and from
/// there to shader reads in the read-only layout at the fragment shader.
pub proof fn texture_barriers_written_out()
    ensures
        spec_texture_barrier(ImageLayout::Undefined) == Some(
            ImageBarrier {
                from_access: ACCESS_NONE,
                from_layout: ImageLayout::Undefined,
                to_access: ACCESS_TRANSFER_WRITE,
                to_layout: ImageLayout::TransferDstOptimal,
                src_stage: STAGE_TOP_OF_PIPE,
                dst_stage: STAGE_TRANSFER,
            },
        ),
        spec_texture_barrier(ImageLayout::TransferDstOptimal) == Some(
            ImageBarrier {
                from_access: ACCESS_TRANSFER_WRITE,
                from_layout: ImageLayout::TransferDstOptimal,
                to_access: ACCESS_SHADER_READ,
                to_layout: ImageLayout::ShaderReadOnlyOptimal,
                src_stage: STAGE_TRANSFER,
                dst_stage: STAGE_FRAGMENT_SHADER,
            },
        ),
        spec_texture_barrier(ImageLayout::ShaderReadOnlyOptimal) is None,
{
}

} // verus!
