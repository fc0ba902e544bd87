//! The protocol of one frame, and of one recreation of the swapchain:
//! what the engine is told, and what it asks to be done next.

use vstd::prelude::*;
use crate::render_target::{Extent, Framebuffer};
use crate::swapchain::SwapchainConfig;

verus! {

/// A colour with alpha, each channel in hundredths of its full value.
#[derive(Clone, Copy, Debug, PartialEq, Eq, Structural)]
pub struct ClearColor {
    pub red: u8,
    pub green: u8,
    pub blue: u8,
    pub alpha: u8,
}

/// The colour that every frame is cleared to.
pub open spec fn sky_blue() -> ClearColor {
    ClearColor { red: 0, green: 68, blue: 100, alpha: 100 }
}

impl ClearColor {
    pub fn sky_blue() -> (c: ClearColor)
        ensures
            c == sky_blue(),
    {
        ClearColor { red: 0, green: 68, blue: 100, alpha: 100 }
    }
}

/// The work that the last frame left on the device.
#[derive(Clone, Copy, Debug, PartialEq, Eq, Structural)]
pub enum InFlightFuture {
    /// Nothing is outstanding: there is nothing to wait for.
    Complete,
    /// The submission of the last frame, not yet known to be complete.
    Pending,
}

/// Where the engine stands. A frame runs from `Idle` through `Acquiring`,
/// `Recording` and `Submitted` back to `Idle`; a recreation of the
/// swapchain runs from `Idle` through `Resizing` back to `Idle`.
#[derive(Clone, Copy, Debug, PartialEq, Eq, Structural)]
pub enum Phase {
    Idle,
    Acquiring,
    Recording { image_index: u32 },
    Submitted { image_index: u32 },
    Resizing,
}

/// What happened on the device or in the window during a frame.
#[derive(Clone, Copy, Debug, PartialEq, Eq, Structural)]
pub enum FrameEvent {
    /// The window asks for a new frame.
    RedrawRequested,
    /// An image was acquired. `suboptimal`: the swapchain still works but no
    /// longer matches the surface well.
    Acquired { image_index: u32, suboptimal: bool },
    /// No image was acquired: the swapchain is out of date.
    AcquireOutOfDate,
    /// No image was acquired, for any other reason.
    AcquireFailed,
    /// The command buffer was recorded.
    Recorded,
    /// The command buffer could not be recorded.
    RecordFailed,
    /// The commands were submitted, the image queued for presentation, the
    /// fence signalled and all of it flushed.
    Flushed,
    /// The flush found the swapchain out of date.
    FlushOutOfDate,
    /// The flush failed, for any other reason.
    FlushFailed,
    /// The queue did not take the command buffer.
    SubmitFailed,
}

/// Why a frame, or a recreation, cannot go on.
#[derive(Clone, Copy, Debug, PartialEq, Eq, Structural)]
pub enum Fatal {
    AcquireFailed,
    /// The acquired image has no framebuffer.
    NoFramebuffer,
    RecordFailed,
    SubmitFailed,
    RecreateFailed,
    /// The swapchain came back without images.
    NoSwapchainImages,
    /// The event does not answer what the engine asked for last.
    OutOfTurn,
}

/// What is to be done next for the frame.
#[derive(Clone, Copy, Debug, PartialEq, Eq)]
pub enum FrameAction {
    /// Let the in-flight work release what it has finished with, without
    /// waiting for it; then acquire the next image, without a timeout.
    ReclaimAndAcquire,
    /// Record a command buffer, to be submitted once, on the given queue
    /// family: begin the render pass on the framebuffer with the clear
    /// colour, and end it.
    Record { queue_family_index: u32, framebuffer: Framebuffer, clear_color: ClearColor },
    /// After the in-flight work and the acquisition: execute the command
    /// buffer, present the image, signal a fence and flush.
    Submit { image_index: u32 },
    /// Keep the flushed work as the in-flight work. The frame is done.
    Store,
    /// Put finished work in the place of the in-flight work. The frame is
    /// done.
    Reset,
    /// As `Reset`, after reporting the failure of the flush.
    ReportAndReset,
    /// Nothing was recorded or presented. The frame is done.
    Skip,
    /// Stop: the failure cannot be recovered from.
    Abort(Fatal),
}

/// What happened during a recreation of the swapchain.
#[derive(Debug)]
pub enum ResizeEvent {
    /// A recreation is asked for; the window has this extent now.
    Requested { window_extent: Extent },
    /// The swapchain was made anew, with this extent and these images.
    Recreated { image_extent: Extent, images: Vec<Extent> },
    /// The surface does not support the extent that was asked for.
    ExtentNotSupported,
    /// The swapchain could not be made, for any other reason.
    Failed,
}

/// What is to be done next for the recreation.
#[derive(Clone, Copy, Debug, PartialEq, Eq)]
pub enum ResizeAction {
    /// No recreation is pending.
    Nothing,
    /// Make the swapchain anew from the old one, with this configuration.
    Recreate(SwapchainConfig),
    /// Take the new swapchain and build its framebuffers; the engine's
    /// framebuffers and viewport say which.
    Rebuild,
    /// Keep the old swapchain and try again later.
    Retry,
    /// Stop: the failure cannot be recovered from.
    Abort(Fatal),
}

} // verus!
