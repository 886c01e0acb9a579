//! Runtime core of a minimal real-time image presenter.
//!
//! The library owns the decisions of a program that uploads one texture and
//! then draws it, frame after frame, onto the images of a swapchain. It makes
//! no call into a graphics API itself: it tells its driver what to do, in
//! plain values, and is told what came of it.
//!
//! - [`device`]: the choice of an adapter and of its queue family.
//! - [`memory`]: the choice of a memory type, and the binding of resources.
//! - [`png`]: which files are handed to the decoder.
//! - [`texture`] and [`upload`]: decoding, staging with padded rows, and the
//!   commands that transfer the staged pixels into the image.
//! - [`barrier`]: image layouts and the order in which an image takes them.
//! - [`descriptor`] and [`pipeline`]: the fixed descriptor set, render pass
//!   and pipeline state.
//! - [`swapchain`]: the format and the extent of the presentable images.
//! - [`frame`]: the scheduler of the steady-state loop, with its frame slots,
//!   fences and rotating semaphores.
//! - [`application`]: the application itself, its loop flag and its teardown.
//! - [`error`]: failures and how they are dealt with.

pub mod application;
pub mod barrier;
pub mod descriptor;
pub mod device;
pub mod error;
pub mod frame;
pub mod memory;
pub mod pipeline;
pub mod png;
pub mod swapchain;
pub mod texture;
pub mod upload;
