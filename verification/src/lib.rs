//! A presentation engine for a window: which adapter to draw with, how the
//! swapchain is configured and made anew when the window changes, what a
//! frame does step by step, and when a recreation of the swapchain is due.

use vstd::prelude::*;
use crate::frame::{sky_blue, FrameAction, FrameEvent, Phase, ResizeAction, ResizeEvent};
use crate::graphic_engine::{images_match, EngineState, Graphicengine};
use crate::render_target::Extent;
use crate::swapchain::with_extent;

pub mod device;
pub mod frame;
pub mod graphic_engine;
pub mod render_target;
pub mod swapchain;
pub mod vulkan;

verus! {

/// What the window reports to the loop.
#[derive(Clone, Copy, Debug, PartialEq, Eq, Structural)]
pub enum Event {
    CloseRequested,
    Resized,
    RedrawEventsCleared,
    Other,
}

/// What the loop does with an event of the window.
#[derive(Clone, Copy, Debug, PartialEq, Eq, Structural)]
pub enum Dispatch {
    /// Leave the loop.
    Exit,
    /// Draw a frame.
    Render,
    /// Nothing.
    Continue,
}

/// The engine together with the flag that asks for a recreation of its
/// swapchain.
pub struct App {
    pub graphic_engine: Graphicengine,
    pub recreate_swapchain: bool,
}

/// The loop as a value: what its contracts speak of.
pub struct AppState {
    pub graphic_engine: EngineState,
    pub recreate_swapchain: bool,
}

impl AppState {
    /// The loop after an event of the window, and what it does with it: a
    /// change of size asks for a recreation of the swapchain.
    pub open spec fn run(self, event: Event) -> (AppState, Dispatch) {
        match event {
            Event::CloseRequested => (self, Dispatch::Exit),
            Event::Resized => (AppState { recreate_swapchain: true, ..self }, Dispatch::Continue),
            Event::RedrawEventsCleared => (self, Dispatch::Render),
            Event::Other => (self, Dispatch::Continue),
        }
    }

    /// The loop after one step of a frame.
    pub open spec fn render(self, event: FrameEvent) -> (AppState, FrameAction) {
        let (graphic_engine, recreate_swapchain, action) = self.graphic_engine.render(
            event,
            self.recreate_swapchain,
        );
        (AppState { graphic_engine, recreate_swapchain }, action)
    }

    /// The loop after one step of a recreation. A recreation begins only
    /// where the flag asks for one.
    pub open spec fn resize(self, event: ResizeEvent) -> (AppState, ResizeAction) {
        if event is Requested && !self.recreate_swapchain {
            (self, ResizeAction::Nothing)
        } else {
            let (graphic_engine, recreate_swapchain, action) =
                self.graphic_engine.recreate_swapchain(event, self.recreate_swapchain);
            (AppState { graphic_engine, recreate_swapchain }, action)
        }
    }
}

impl View for App {
    type V = AppState;

    open spec fn view(&self) -> AppState {
        AppState {
            graphic_engine: self.graphic_engine@,
            recreate_swapchain: self.recreate_swapchain,
        }
    }
}

impl App {
    /// The loop around `graphic_engine`, with no recreation asked for.
    pub fn new(graphic_engine: Graphicengine) -> (app: App)
        ensures
            app@ == (AppState { graphic_engine: graphic_engine@, recreate_swapchain: false }),
    {
        App { graphic_engine, recreate_swapchain: false }
    }

    /// Takes one event of the window.
    pub fn run(&mut self, event: Event) -> (dispatch: Dispatch)
        ensures
            (final(self)@, dispatch) == old(self)@.run(event),
    {
        match event {
            Event::CloseRequested => Dispatch::Exit,
            Event::Resized => {
                self.recreate_swapchain = true;
                Dispatch::Continue
            },
            Event::RedrawEventsCleared => Dispatch::Render,
            Event::Other => Dispatch::Continue,
        }
    }

    /// Takes the frame one step on.
    pub fn render(&mut self, event: FrameEvent) -> (action: FrameAction)
        ensures
            (final(self)@, action) == old(self)@.render(event),
    {
        self.graphic_engine.render(event, &mut self.recreate_swapchain)
    }

    /// Takes the recreation of the swapchain one step on. To be asked with
    /// `ResizeEvent::Requested` after every event of the window: the answer
    /// is `ResizeAction::Nothing` unless a recreation is pending.
    pub fn resize(&mut self, event: ResizeEvent) -> (action: ResizeAction)
        ensures
            (final(self)@, action) == old(self)@.resize(event),
    {
        if !self.recreate_swapchain {
            if let ResizeEvent::Requested { .. } = event {
                return ResizeAction::Nothing;
            }
        }
        self.graphic_engine.recreate_swapchain(event, &mut self.recreate_swapchain)
    }
}

/// After a change of the window's size the swapchain is made anew once,
/// and the next frame is drawn to a framebuffer of the new size.
///
/// The loop is idle when the window reports the change. The recreation
/// that follows is answered with a swapchain of the window's extent. Then
/// a frame runs, on an image that is not suboptimal, and is flushed. The
/// request that follows the frame finds nothing to do.
pub proof fn lemma_resize_then_frame(
    app: AppState,
    window_extent: Extent,
    answer: ResizeEvent,
    image_index: u32,
)
    requires
        app.graphic_engine.wf(),
        app.graphic_engine.phase == Phase::Idle,
        answer matches ResizeEvent::Recreated { image_extent, images } && image_extent
            == window_extent && images_match(
            with_extent(app.graphic_engine.swapchain, window_extent),
            images@,
        ) && image_index < images@.len(),
    ensures
        ({
            let request = ResizeEvent::Requested { window_extent };
            let (resized, dispatched) = app.run(Event::Resized);
            let (asked, recreate) = resized.resize(request);
            let (rebuilt, rebuild) = asked.resize(answer);
            let (idle, nothing) = rebuilt.resize(request);
            let (redraw, render) = idle.run(Event::RedrawEventsCleared);
            let (acquiring, acquire) = redraw.render(FrameEvent::RedrawRequested);
            let (recording, record) = acquiring.render(
                FrameEvent::Acquired { image_index, suboptimal: false },
            );
            let (submitted, submit) = recording.render(FrameEvent::Recorded);
            let (done, store) = submitted.render(FrameEvent::Flushed);
            let (after, none) = done.resize(request);
            &&& dispatched == Dispatch::Continue
            &&& recreate == ResizeAction::Recreate(
                with_extent(app.graphic_engine.swapchain, window_extent),
            )
            &&& rebuild == ResizeAction::Rebuild
            &&& !rebuilt.recreate_swapchain
            &&& rebuilt.graphic_engine.swapchain.image_extent == window_extent
            &&& rebuilt.graphic_engine.viewport.dimensions == window_extent
            &&& nothing == ResizeAction::Nothing
            &&& idle == rebuilt
            &&& render == Dispatch::Render
            &&& acquire == FrameAction::ReclaimAndAcquire
            &&& record matches FrameAction::Record { framebuffer, clear_color, .. }
            &&& framebuffer.extent == window_extent
            &&& framebuffer.image_index == image_index
            &&& clear_color == sky_blue()
            &&& submit == FrameAction::Submit { image_index }
            &&& store == FrameAction::Store
            &&& none == ResizeAction::Nothing
            &&& after == done
            &&& done.graphic_engine.phase == Phase::Idle
        }),
{
}

} // verus!
