//! What can go wrong, and how bad it is.
//!
//! A failure during setup is fatal: the program stops with a diagnostic that
//! names the step. A failure within an iteration of the loop (no image
//! acquired, presentation refused) is reported and the loop goes on.

use crate::memory::AllocError;
use crate::texture::TextureError;
use crate::upload::UploadError;
use vstd::prelude::*;

verus! {

/// A failure during setup.
#[derive(Clone, Copy, Debug, PartialEq, Eq, Structural)]
pub enum SetupError {
    /// No adapter has a queue family that can draw and present.
    NoCompatibleAdapter,
    /// No memory type suits a resource.
    NoSuitableMemoryType,
    /// The device could not allocate memory.
    AllocationFailed,
    /// The texture file could not be decoded.
    TextureDecodeFailed,
    /// The texture cannot be laid out in a staging buffer.
    UploadLayoutFailed,
    /// The wait for the upload's fence failed.
    UploadFenceWaitFailed,
    /// A shader could not be compiled.
    ShaderCompileFailed,
    /// The descriptor-set layout, pool or set could not be created.
    DescriptorSetupFailed,
    /// The render pass could not be created.
    RenderPassCreationFailed,
    /// The graphics pipeline could not be created.
    PipelineCreationFailed,
    /// The surface allows no swapchain.
    SwapchainSetupFailed,
}

/// A failure of any kind.
#[derive(Clone, Copy, Debug, PartialEq, Eq, Structural)]
pub enum Failure {
    Setup(SetupError),
    /// The swapchain handed out no image.
    Acquire,
    /// Presentation was refused.
    Present,
}

/// How a failure is dealt with.
#[derive(Clone, Copy, Debug, PartialEq, Eq, Structural)]
pub enum Severity {
    /// The program stops.
    Fatal,
    /// The loop reports the failure and goes on with the next iteration.
    Recoverable,
}

impl Failure {
    /// Failures of setup are fatal, those of the steady state are not.
    pub open spec fn spec_severity(self) -> Severity {
        match self {
            Failure::Setup(_) => Severity::Fatal,
            Failure::Acquire => Severity::Recoverable,
            Failure::Present => Severity::Recoverable,
        }
    }

    /// How the failure is dealt with.
    pub fn severity(&self) -> (severity: Severity)
        ensures
            severity == self.spec_severity(),
    {
        match self {
            Failure::Setup(_) => Severity::Fatal,
            Failure::Acquire => Severity::Recoverable,
            Failure::Present => Severity::Recoverable,
        }
    }
}

/// A step of setup whose outcome the device or a collaborator reports as
/// success or failure.
#[derive(Clone, Copy, Debug, PartialEq, Eq, Structural)]
pub enum SetupStep {
    ShaderCompilation,
    DescriptorSetup,
    RenderPassCreation,
    PipelineCreation,
    SwapchainSetup,
    UploadFenceWait,
}

impl SetupStep {
    /// The failure of the step.
    pub open spec fn spec_failure(self) -> SetupError {
        match self {
            SetupStep::ShaderCompilation => SetupError::ShaderCompileFailed,
            SetupStep::DescriptorSetup => SetupError::DescriptorSetupFailed,
            SetupStep::RenderPassCreation => SetupError::RenderPassCreationFailed,
            SetupStep::PipelineCreation => SetupError::PipelineCreationFailed,
            SetupStep::SwapchainSetup => SetupError::SwapchainSetupFailed,
            SetupStep::UploadFenceWait => SetupError::UploadFenceWaitFailed,
        }
    }

    /// Setup goes on after a step that succeeded, and stops with the step's
    /// failure after one that did not.
    pub fn outcome(self, succeeded: bool) -> (outcome: Result<(), SetupError>)
        ensures
            outcome is Ok <==> succeeded,
            outcome matches Err(e) ==> e == self.spec_failure(),
    {
        if succeeded {
            Ok(())
        } else {
            Err(
                match self {
                    SetupStep::ShaderCompilation => SetupError::ShaderCompileFailed,
                    SetupStep::DescriptorSetup => SetupError::DescriptorSetupFailed,
                    SetupStep::RenderPassCreation => SetupError::RenderPassCreationFailed,
                    SetupStep::PipelineCreation => SetupError::PipelineCreationFailed,
                    SetupStep::SwapchainSetup => SetupError::SwapchainSetupFailed,
                    SetupStep::UploadFenceWait => SetupError::UploadFenceWaitFailed,
                },
            )
        }
    }
}

impl SetupError {
    /// The failure of a binding, as a failure of setup.
    pub open spec fn spec_from_alloc(error: AllocError) -> SetupError {
        match error {
            AllocError::NoSuitableMemoryType => SetupError::NoSuitableMemoryType,
            AllocError::AllocationFailed => SetupError::AllocationFailed,
        }
    }

    /// The failure of a binding, as a failure of setup.
    pub fn from_alloc(error: AllocError) -> (setup: SetupError)
        ensures
            setup == Self::spec_from_alloc(error),
    {
        match error {
            AllocError::NoSuitableMemoryType => SetupError::NoSuitableMemoryType,
            AllocError::AllocationFailed => SetupError::AllocationFailed,
        }
    }

    /// The failure of an upload, as a failure of setup.
    pub open spec fn spec_from_upload(error: UploadError) -> SetupError {
        match error {
            UploadError::Layout => SetupError::UploadLayoutFailed,
            UploadError::StagingTooSmall => SetupError::UploadLayoutFailed,
            UploadError::FenceWait => SetupError::UploadFenceWaitFailed,
        }
    }

    /// The failure of an upload, as a failure of setup.
    pub fn from_upload(error: UploadError) -> (setup: SetupError)
        ensures
            setup == Self::spec_from_upload(error),
    {
        match error {
            UploadError::Layout => SetupError::UploadLayoutFailed,
            UploadError::StagingTooSmall => SetupError::UploadLayoutFailed,
            UploadError::FenceWait => SetupError::UploadFenceWaitFailed,
        }
    }

    /// The failure to make a texture, as a failure of setup: either way the
    /// file gave no usable pixels.
    pub fn from_texture(error: TextureError) -> (setup: SetupError)
        ensures
            setup == SetupError::TextureDecodeFailed,
    {
        SetupError::TextureDecodeFailed
    }

    /// The diagnostic, which names the step that failed.
    pub open spec fn spec_diagnostic(self) -> Seq<char> {
        match self {
            SetupError::NoCompatibleAdapter => "adapter selection: no compatible adapter"@,
            SetupError::NoSuitableMemoryType => "resource binding: no suitable memory type"@,
            SetupError::AllocationFailed => "resource binding: allocation failed"@,
            SetupError::TextureDecodeFailed => "texture: decoding failed"@,
            SetupError::UploadLayoutFailed => "upload: image cannot be staged"@,
            SetupError::UploadFenceWaitFailed => "upload: fence wait failed"@,
            SetupError::ShaderCompileFailed => "pipeline: shader compilation failed"@,
            SetupError::DescriptorSetupFailed => "descriptors: creation failed"@,
            SetupError::RenderPassCreationFailed => "render pass: creation failed"@,
            SetupError::PipelineCreationFailed => "pipeline: creation failed"@,
            SetupError::SwapchainSetupFailed => "swapchain: surface allows no configuration"@,
        }
    }

    /// The diagnostic, which names the step that failed.
    pub fn diagnostic(&self) -> (text: &'static str)
        ensures
            text@ == self.spec_diagnostic(),
    {
        match self {
            SetupError::NoCompatibleAdapter => "adapter selection: no compatible adapter",
            SetupError::NoSuitableMemoryType => "resource binding: no suitable memory type",
            SetupError::AllocationFailed => "resource binding: allocation failed",
            SetupError::TextureDecodeFailed => "texture: decoding failed",
            SetupError::UploadLayoutFailed => "upload: image cannot be staged",
            SetupError::UploadFenceWaitFailed => "upload: fence wait failed",
            SetupError::ShaderCompileFailed => "pipeline: shader compilation failed",
            SetupError::DescriptorSetupFailed => "descriptors: creation failed",
            SetupError::RenderPassCreationFailed => "render pass: creation failed",
            SetupError::PipelineCreationFailed => "pipeline: creation failed",
            SetupError::SwapchainSetupFailed => "swapchain: surface allows no configuration",
        }
    }
}

} // verus!
