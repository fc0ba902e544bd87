//! The presentation engine: the swapchain it presents with, the targets it
//! draws to, and the state of the frame that is in progress.
//!
//! The engine holds no handle of the device. It is told what happened
//! there, frame event by frame event, and answers with what is to be done
//! next; whoever holds the handles does that and reports back.

use vstd::prelude::*;
use crate::frame::{
    sky_blue, ClearColor, Fatal, FrameAction, FrameEvent, InFlightFuture, Phase, ResizeAction,
    ResizeEvent,
};
use crate::render_target::{
    framebuffers_of, resized, Extent, Framebuffer, NoSwapchainImages, RenderPass, Viewport,
};
use crate::swapchain::{swapchain_for, with_extent, SurfaceCapabilities, SwapchainConfig};

verus! {

pub struct Graphicengine {
    queue_family_index: u32,
    swapchain: SwapchainConfig,
    images: Vec<Extent>,
    framebuffers: Vec<Framebuffer>,
    render_pass: RenderPass,
    viewport: Viewport,
    previous_frame_end: InFlightFuture,
    phase: Phase,
}

/// The engine as a value: what its contracts speak of.
pub struct EngineState {
    /// The family of the one queue that draws and presents.
    pub queue_family_index: u32,
    /// The configuration of the current swapchain.
    pub swapchain: SwapchainConfig,
    /// The dimensions of the images of the current swapchain.
    pub images: Seq<Extent>,
    pub framebuffers: Seq<Framebuffer>,
    pub render_pass: RenderPass,
    pub viewport: Viewport,
    pub previous_frame_end: InFlightFuture,
    pub phase: Phase,
}

/// The render pass for images of the given swapchain.
pub open spec fn render_pass_for(swapchain: SwapchainConfig) -> RenderPass {
    RenderPass { color_format: swapchain.image_format, samples: 1 }
}

/// The viewport before any image is known.
pub open spec fn initial_viewport() -> Viewport {
    Viewport {
        origin_x: 0,
        origin_y: 0,
        dimensions: Extent { width: 0, height: 0 },
        depth_near: 0,
        depth_far: 1,
    }
}

/// The engine right after its creation.
pub open spec fn initial_state(
    queue_family_index: u32,
    swapchain: SwapchainConfig,
    images: Seq<Extent>,
) -> EngineState {
    EngineState {
        queue_family_index,
        swapchain,
        images,
        framebuffers: framebuffers_of(images, render_pass_for(swapchain)),
        render_pass: render_pass_for(swapchain),
        viewport: resized(initial_viewport(), images[0]),
        previous_frame_end: InFlightFuture::Complete,
        phase: Phase::Idle,
    }
}

/// The images are those of a swapchain of this configuration: there is at
/// least one, and each has the extent of the swapchain. The presentation
/// layer sees to this; the engine does not test it.
pub open spec fn images_match(swapchain: SwapchainConfig, images: Seq<Extent>) -> bool {
    &&& images.len() > 0
    &&& forall|i: int| 0 <= i < images.len() ==> #[trigger] images[i] == swapchain.image_extent
}

impl EngineState {
    /// What holds of every engine: there is one framebuffer for each image
    /// of the swapchain, bound to the one render pass, whose format is
    /// that of the swapchain; the viewport has the dimensions of the first
    /// image.
    pub open spec fn wf(self) -> bool {
        &&& self.images.len() > 0
        &&& self.render_pass == render_pass_for(self.swapchain)
        &&& self.framebuffers == framebuffers_of(self.images, self.render_pass)
        &&& self.viewport == resized(initial_viewport(), self.images[0])
    }

    /// The engine after `event` of a frame, the flag that asks for a
    /// recreation of the swapchain after it, and what is to be done next.
    pub open spec fn render(self, event: FrameEvent, recreate_swapchain: bool) -> (
        EngineState,
        bool,
        FrameAction,
    ) {
        match (self.phase, event) {
            (Phase::Idle, FrameEvent::RedrawRequested) => (
                EngineState { phase: Phase::Acquiring, ..self },
                recreate_swapchain,
                FrameAction::ReclaimAndAcquire,
            ),
            (Phase::Acquiring, FrameEvent::Acquired { image_index, suboptimal }) => if image_index
                < self.framebuffers.len() {
                (
                    EngineState { phase: Phase::Recording { image_index }, ..self },
                    recreate_swapchain || suboptimal,
                    FrameAction::Record {
                        queue_family_index: self.queue_family_index,
                        framebuffer: self.framebuffers[image_index as int],
                        clear_color: sky_blue(),
                    },
                )
            } else {
                (self, recreate_swapchain, FrameAction::Abort(Fatal::NoFramebuffer))
            },
            (Phase::Acquiring, FrameEvent::AcquireOutOfDate) => (
                EngineState { phase: Phase::Idle, ..self },
                true,
                FrameAction::Skip,
            ),
            (Phase::Acquiring, FrameEvent::AcquireFailed) => (
                self,
                recreate_swapchain,
                FrameAction::Abort(Fatal::AcquireFailed),
            ),
            (Phase::Recording { image_index }, FrameEvent::Recorded) => (
                EngineState { phase: Phase::Submitted { image_index }, ..self },
                recreate_swapchain,
                FrameAction::Submit { image_index },
            ),
            (Phase::Recording { .. }, FrameEvent::RecordFailed) => (
                self,
                recreate_swapchain,
                FrameAction::Abort(Fatal::RecordFailed),
            ),
            (Phase::Submitted { .. }, FrameEvent::Flushed) => (
                EngineState {
                    phase: Phase::Idle,
                    previous_frame_end: InFlightFuture::Pending,
                    ..self
                },
                recreate_swapchain,
                FrameAction::Store,
            ),
            (Phase::Submitted { .. }, FrameEvent::FlushOutOfDate) => (
                EngineState {
                    phase: Phase::Idle,
                    previous_frame_end: InFlightFuture::Complete,
                    ..self
                },
                true,
                FrameAction::Reset,
            ),
            (Phase::Submitted { .. }, FrameEvent::FlushFailed) => (
                EngineState {
                    phase: Phase::Idle,
                    previous_frame_end: InFlightFuture::Complete,
                    ..self
                },
                recreate_swapchain,
                FrameAction::ReportAndReset,
            ),
            (Phase::Submitted { .. }, FrameEvent::SubmitFailed) => (
                self,
                recreate_swapchain,
                FrameAction::Abort(Fatal::SubmitFailed),
            ),
            _ => (self, recreate_swapchain, FrameAction::Abort(Fatal::OutOfTurn)),
        }
    }

    /// The engine after a run of frames, one on each image of
    /// `image_indices` in turn, during which the device does all that is
    /// asked of it and finds no image suboptimal; with it the flag after
    /// the run and what was asked for, in order.
    pub open spec fn frames(self, image_indices: Seq<u32>, recreate_swapchain: bool) -> (
        EngineState,
        bool,
        Seq<FrameAction>,
    )
        decreases image_indices.len(),
    {
        if image_indices.len() == 0 {
            (self, recreate_swapchain, Seq::empty())
        } else {
            let (before, flag, actions) = self.frames(
                image_indices.drop_last(),
                recreate_swapchain,
            );
            let image_index = image_indices.last();
            let (acquiring, flag, acquire) = before.render(FrameEvent::RedrawRequested, flag);
            let (recording, flag, record) = acquiring.render(
                FrameEvent::Acquired { image_index, suboptimal: false },
                flag,
            );
            let (submitted, flag, submit) = recording.render(FrameEvent::Recorded, flag);
            let (done, flag, resolve) = submitted.render(FrameEvent::Flushed, flag);
            (done, flag, actions + seq![acquire, record, submit, resolve])
        }
    }

    /// The engine with the swapchain that was made anew.
    pub open spec fn recreated(self, image_extent: Extent, images: Seq<Extent>) -> EngineState {
        EngineState {
            swapchain: with_extent(self.swapchain, image_extent),
            images,
            framebuffers: framebuffers_of(images, self.render_pass),
            viewport: resized(self.viewport, images[0]),
            phase: Phase::Idle,
            ..self
        }
    }

    /// The engine after `event` of a recreation, the flag after it, and
    /// what is to be done next.
    pub open spec fn recreate_swapchain(self, event: ResizeEvent, recreate_swapchain: bool) -> (
        EngineState,
        bool,
        ResizeAction,
    ) {
        match (self.phase, event) {
            (Phase::Idle, ResizeEvent::Requested { window_extent }) => (
                EngineState { phase: Phase::Resizing, ..self },
                recreate_swapchain,
                ResizeAction::Recreate(with_extent(self.swapchain, window_extent)),
            ),
            (Phase::Resizing, ResizeEvent::Recreated { image_extent, images }) => if images@.len()
                > 0 {
                (self.recreated(image_extent, images@), false, ResizeAction::Rebuild)
            } else {
                (self, recreate_swapchain, ResizeAction::Abort(Fatal::NoSwapchainImages))
            },
            (Phase::Resizing, ResizeEvent::ExtentNotSupported) => (
                EngineState { phase: Phase::Idle, ..self },
                recreate_swapchain,
                ResizeAction::Retry,
            ),
            (Phase::Resizing, ResizeEvent::Failed) => (
                self,
                recreate_swapchain,
                ResizeAction::Abort(Fatal::RecreateFailed),
            ),
            _ => (self, recreate_swapchain, ResizeAction::Abort(Fatal::OutOfTurn)),
        }
    }
}

impl View for Graphicengine {
    type V = EngineState;

    closed spec fn view(&self) -> EngineState {
        EngineState {
            queue_family_index: self.queue_family_index,
            swapchain: self.swapchain,
            images: self.images@,
            framebuffers: self.framebuffers@,
            render_pass: self.render_pass,
            viewport: self.viewport,
            previous_frame_end: self.previous_frame_end,
            phase: self.phase,
        }
    }
}

impl Graphicengine {
    #[verifier::type_invariant]
    spec fn inv(self) -> bool {
        self@.wf()
    }

    /// The engine for a swapchain that was made with the configuration
    /// `swapchain` and came with `images`; commands go to a queue of the
    /// family `queue_family_index`. Nothing is in flight and no frame is in
    /// progress.
    pub fn new(queue_family_index: u32, swapchain: SwapchainConfig, images: Vec<Extent>) -> (r:
        Result<Graphicengine, NoSwapchainImages>)
        ensures
            images@.len() == 0 ==> r is Err,
            images@.len() > 0 ==> r is Ok && r->Ok_0@ == initial_state(
                queue_family_index,
                swapchain,
                images@,
            ),
            r is Ok ==> r->Ok_0@.wf(),
    {
        let render_pass = RenderPass { color_format: swapchain.image_format, samples: 1 };
        let mut viewport = Viewport::new();
        let framebuffers = match Graphicengine::window_size_dependent_setup(
            &images,
            render_pass,
            &mut viewport,
        ) {
            Ok(framebuffers) => framebuffers,
            Err(e) => {
                return Err(e);
            },
        };
        Ok(
            Graphicengine {
                queue_family_index,
                swapchain,
                images,
                framebuffers,
                render_pass,
                viewport,
                previous_frame_end: InFlightFuture::Complete,
                phase: Phase::Idle,
            },
        )
    }

    /// Takes the frame one step on: `event` says what happened since the
    /// step before. Sets `recreate_swapchain` where the swapchain was found
    /// suboptimal or out of date, and never clears it.
    pub fn render(&mut self, event: FrameEvent, recreate_swapchain: &mut bool) -> (action:
        FrameAction)
        ensures
            (final(self)@, *final(recreate_swapchain), action) == old(self)@.render(
                event,
                *old(recreate_swapchain),
            ),
            final(self)@.wf(),
    {
        proof {
            use_type_invariant(&*self);
        }
        match (self.phase, event) {
            (Phase::Idle, FrameEvent::RedrawRequested) => {
                self.phase = Phase::Acquiring;
                FrameAction::ReclaimAndAcquire
            },
            (Phase::Acquiring, FrameEvent::Acquired { image_index, suboptimal }) => {
                if (image_index as usize) < self.framebuffers.len() {
                    if suboptimal {
                        *recreate_swapchain = true;
                    }
                    self.phase = Phase::Recording { image_index };
                    FrameAction::Record {
                        queue_family_index: self.queue_family_index,
                        framebuffer: self.framebuffers[image_index as usize],
                        clear_color: ClearColor::sky_blue(),
                    }
                } else {
                    FrameAction::Abort(Fatal::NoFramebuffer)
                }
            },
            (Phase::Acquiring, FrameEvent::AcquireOutOfDate) => {
                *recreate_swapchain = true;
                self.phase = Phase::Idle;
                FrameAction::Skip
            },
            (Phase::Acquiring, FrameEvent::AcquireFailed) => FrameAction::Abort(
                Fatal::AcquireFailed,
            ),
            (Phase::Recording { image_index }, FrameEvent::Recorded) => {
                self.phase = Phase::Submitted { image_index };
                FrameAction::Submit { image_index }
            },
            (Phase::Recording { .. }, FrameEvent::RecordFailed) => FrameAction::Abort(
                Fatal::RecordFailed,
            ),
            (Phase::Submitted { .. }, FrameEvent::Flushed) => {
                self.previous_frame_end = InFlightFuture::Pending;
                self.phase = Phase::Idle;
                FrameAction::Store
            },
            (Phase::Submitted { .. }, FrameEvent::FlushOutOfDate) => {
                *recreate_swapchain = true;
                self.previous_frame_end = InFlightFuture::Complete;
                self.phase = Phase::Idle;
                FrameAction::Reset
            },
            (Phase::Submitted { .. }, FrameEvent::FlushFailed) => {
                self.previous_frame_end = InFlightFuture::Complete;
                self.phase = Phase::Idle;
                FrameAction::ReportAndReset
            },
            (Phase::Submitted { .. }, FrameEvent::SubmitFailed) => FrameAction::Abort(
                Fatal::SubmitFailed,
            ),
            _ => FrameAction::Abort(Fatal::OutOfTurn),
        }
    }

    /// Takes the recreation of the swapchain one step on. A swapchain made
    /// anew takes the place of the old one, with framebuffers and viewport
    /// to match, and clears `recreate_swapchain`; an extent that the surface
    /// does not support leaves everything as it is, the flag too.
    pub fn recreate_swapchain(&mut self, event: ResizeEvent, recreate_swapchain: &mut bool) -> (action:
        ResizeAction)
        ensures
            (final(self)@, *final(recreate_swapchain), action) == old(self)@.recreate_swapchain(
                event,
                *old(recreate_swapchain),
            ),
            final(self)@.wf(),
    {
        proof {
            use_type_invariant(&*self);
        }
        match (self.phase, event) {
            (Phase::Idle, ResizeEvent::Requested { window_extent }) => {
                self.phase = Phase::Resizing;
                let mut request = self.swapchain;
                request.image_extent = window_extent;
                ResizeAction::Recreate(request)
            },
            (Phase::Resizing, ResizeEvent::Recreated { image_extent, images }) => {
                let mut viewport = self.viewport;
                match Graphicengine::window_size_dependent_setup(
                    &images,
                    self.render_pass,
                    &mut viewport,
                ) {
                    Ok(framebuffers) => {
                        let mut swapchain = self.swapchain;
                        swapchain.image_extent = image_extent;
                        *self = Graphicengine {
                            queue_family_index: self.queue_family_index,
                            swapchain,
                            images,
                            framebuffers,
                            render_pass: self.render_pass,
                            viewport,
                            previous_frame_end: self.previous_frame_end,
                            phase: Phase::Idle,
                        };
                        *recreate_swapchain = false;
                        ResizeAction::Rebuild
                    },
                    Err(_) => ResizeAction::Abort(Fatal::NoSwapchainImages),
                }
            },
            (Phase::Resizing, ResizeEvent::ExtentNotSupported) => {
                self.phase = Phase::Idle;
                ResizeAction::Retry
            },
            (Phase::Resizing, ResizeEvent::Failed) => ResizeAction::Abort(Fatal::RecreateFailed),
            _ => ResizeAction::Abort(Fatal::OutOfTurn),
        }
    }

    /// The family of the queue that the engine draws and presents with.
    pub fn queue_family_index(&self) -> (r: u32)
        ensures
            r == self@.queue_family_index,
    {
        self.queue_family_index
    }

    /// The configuration of the current swapchain.
    pub fn swapchain(&self) -> (r: SwapchainConfig)
        ensures
            r == self@.swapchain,
    {
        self.swapchain
    }

    /// The number of images of the current swapchain.
    pub fn image_count(&self) -> (r: usize)
        ensures
            r == self@.images.len(),
            r == self@.framebuffers.len(),
            r > 0,
    {
        proof {
            use_type_invariant(self);
        }
        self.images.len()
    }

    /// The framebuffers, one for each image of the current swapchain.
    pub fn framebuffers(&self) -> (r: &Vec<Framebuffer>)
        ensures
            r@ == self@.framebuffers,
            r@ == framebuffers_of(self@.images, self@.render_pass),
    {
        proof {
            use_type_invariant(self);
        }
        &self.framebuffers
    }

    pub fn render_pass(&self) -> (r: RenderPass)
        ensures
            r == self@.render_pass,
            r == render_pass_for(self@.swapchain),
    {
        proof {
            use_type_invariant(self);
        }
        self.render_pass
    }

    pub fn viewport(&self) -> (r: Viewport)
        ensures
            r == self@.viewport,
            r == resized(initial_viewport(), self@.images[0]),
    {
        proof {
            use_type_invariant(self);
        }
        self.viewport
    }

    /// The work that the last frame left on the device.
    pub fn previous_frame_end(&self) -> (r: InFlightFuture)
        ensures
            r == self@.previous_frame_end,
    {
        self.previous_frame_end
    }

    pub fn phase(&self) -> (r: Phase)
        ensures
            r == self@.phase,
    {
        self.phase
    }
}

/// What is built for the first swapchain of a window fits the window.
/// Where the swapchain was configured for a window of some extent and came
/// with images of its own, the builder makes one framebuffer for each
/// image, each of that extent, and gives the viewport that extent; so the
/// engine made for that swapchain has them.
pub proof fn lemma_targets_fit_window(
    capabilities: SurfaceCapabilities,
    window_extent: Extent,
    images: Seq<Extent>,
    render_pass: RenderPass,
    viewport: Viewport,
    queue_family_index: u32,
)
    requires
        swapchain_for(capabilities, window_extent) is Ok,
        images_match(swapchain_for(capabilities, window_extent)->Ok_0, images),
    ensures
        ({
            let framebuffers = framebuffers_of(images, render_pass);
            &&& framebuffers.len() == images.len()
            &&& forall|i: int|
                0 <= i < framebuffers.len() ==> (#[trigger] framebuffers[i]).extent
                    == window_extent
            &&& resized(viewport, images[0]).dimensions == window_extent
        }),
        ({
            let swapchain = swapchain_for(capabilities, window_extent)->Ok_0;
            let engine = initial_state(queue_family_index, swapchain, images);
            &&& engine.wf()
            &&& engine.framebuffers.len() == images.len()
            &&& engine.viewport.dimensions == window_extent
        }),
{
}

/// A recreation with the extent that the swapchain has already changes
/// nothing that is drawn to. The request is the configuration as it was;
/// the framebuffers made for the answer have the dimensions of those
/// before; and where the answer holds as many images as before, the
/// framebuffers and the viewport are those before.
pub proof fn lemma_recreate_same_extent(
    engine: EngineState,
    recreate_swapchain: bool,
    answer: ResizeEvent,
)
    requires
        engine.wf(),
        engine.phase == Phase::Idle,
        images_match(engine.swapchain, engine.images),
        answer matches ResizeEvent::Recreated { image_extent, images } && image_extent
            == engine.swapchain.image_extent && images_match(engine.swapchain, images@),
    ensures
        ({
            let request = ResizeEvent::Requested { window_extent: engine.swapchain.image_extent };
            let (asked, flag, action) = engine.recreate_swapchain(request, recreate_swapchain);
            let (after, _, rebuilt) = asked.recreate_swapchain(answer, flag);
            &&& action == ResizeAction::Recreate(engine.swapchain)
            &&& rebuilt == ResizeAction::Rebuild
            &&& after.wf()
            &&& after.swapchain == engine.swapchain
            &&& after.viewport == engine.viewport
            &&& after.framebuffers.len() == answer->images@.len()
            &&& forall|i: int, j: int|
                0 <= i < after.framebuffers.len() && 0 <= j < engine.framebuffers.len() ==> (
                    #[trigger] after.framebuffers[i]
                ).extent == (#[trigger] engine.framebuffers[j]).extent
            &&& answer->images@.len() == engine.images.len() ==> after.framebuffers
                == engine.framebuffers
        }),
{
    if answer->images@.len() == engine.images.len() {
        assert(answer->images@ =~= engine.images);
    }
}

/// A frame changes neither the swapchain nor what is drawn to, and it
/// never clears the flag.
pub proof fn lemma_render_keeps_targets(
    engine: EngineState,
    event: FrameEvent,
    recreate_swapchain: bool,
)
    ensures
        ({
            let (after, flag, _) = engine.render(event, recreate_swapchain);
            &&& after.swapchain == engine.swapchain
            &&& after.images == engine.images
            &&& after.framebuffers == engine.framebuffers
            &&& after.render_pass == engine.render_pass
            &&& after.viewport == engine.viewport
            &&& recreate_swapchain ==> flag
            &&& engine.wf() ==> after.wf()
        }),
{
}

/// Frames run one at a time, each through the same four steps. In a run
/// of frames without fault the engine asks, for each frame in turn, to
/// acquire an image, to record the one render pass on the framebuffer of
/// the image it was given, to submit and present that image, and to keep
/// the flushed work; the work in flight is replaced once in each frame,
/// and nothing asks for a recreation.
pub proof fn lemma_frames_run_in_turn(
    engine: EngineState,
    image_indices: Seq<u32>,
    recreate_swapchain: bool,
)
    requires
        engine.phase == Phase::Idle,
        forall|k: int|
            0 <= k < image_indices.len() ==> (#[trigger] image_indices[k])
                < engine.framebuffers.len(),
    ensures
        ({
            let (after, flag, actions) = engine.frames(image_indices, recreate_swapchain);
            &&& flag == recreate_swapchain
            &&& after == if image_indices.len() == 0 {
                engine
            } else {
                EngineState { previous_frame_end: InFlightFuture::Pending, ..engine }
            }
            &&& actions.len() == 4 * image_indices.len()
            &&& forall|k: int|
                0 <= k < image_indices.len() ==> {
                    &&& actions[4 * k] == FrameAction::ReclaimAndAcquire
                    &&& actions[4 * k + 1] == FrameAction::Record {
                        queue_family_index: engine.queue_family_index,
                        framebuffer: engine.framebuffers[(#[trigger] image_indices[k]) as int],
                        clear_color: sky_blue(),
                    }
                    &&& actions[4 * k + 2] == FrameAction::Submit { image_index: image_indices[k] }
                    &&& actions[4 * k + 3] == FrameAction::Store
                }
        }),
    decreases image_indices.len(),
{
    if image_indices.len() > 0 {
        lemma_frames_run_in_turn(engine, image_indices.drop_last(), recreate_swapchain);
        let (_, _, actions) = engine.frames(image_indices, recreate_swapchain);
        assert forall|k: int| 0 <= k < image_indices.len() implies {
            &&& actions[4 * k] == FrameAction::ReclaimAndAcquire
            &&& actions[4 * k + 1] == FrameAction::Record {
                queue_family_index: engine.queue_family_index,
                framebuffer: engine.framebuffers[(#[trigger] image_indices[k]) as int],
                clear_color: sky_blue(),
            }
            &&& actions[4 * k + 2] == FrameAction::Submit { image_index: image_indices[k] }
            &&& actions[4 * k + 3] == FrameAction::Store
        } by {
            if k < image_indices.len() - 1 {
                assert(image_indices.drop_last()[k] == image_indices[k]);
            }
        }
    }
}

/// A recreation keeps the engine well formed and the format of the
/// swapchain, with it the render pass, as it was.
pub proof fn lemma_recreate_keeps_format(
    engine: EngineState,
    event: ResizeEvent,
    recreate_swapchain: bool,
)
    requires
        engine.wf(),
    ensures
        ({
            let (after, _, _) = engine.recreate_swapchain(event, recreate_swapchain);
            &&& after.wf()
            &&& after.swapchain.image_format == engine.swapchain.image_format
            &&& after.render_pass == engine.render_pass
        }),
{
}

} // verus!
