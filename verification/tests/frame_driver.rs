use presentation_engine::frame::{
    ClearColor, Fatal, FrameAction, FrameEvent, InFlightFuture, Phase, ResizeEvent,
};
use presentation_engine::graphic_engine::Graphicengine;
use presentation_engine::render_target::{Extent, Framebuffer, RenderPass};
use presentation_engine::swapchain::SwapchainConfig;
use presentation_engine::vulkan::AlphaMode;
use vulkano::format::Format;
use vulkano::image::ImageUsage;

const SIZE: Extent = Extent { width: 800, height: 600 };

fn engine() -> Graphicengine {
    let swapchain = SwapchainConfig {
        min_image_count: 2,
        image_format: Format::B8G8R8A8_SRGB,
        image_extent: SIZE,
        image_usage: ImageUsage { color_attachment: true, ..ImageUsage::empty() },
        composite_alpha: AlphaMode::Opaque,
    };
    Graphicengine::new(7, swapchain, vec![SIZE, SIZE, SIZE]).ok().unwrap()
}

fn record(image_index: usize) -> FrameAction {
    FrameAction::Record {
        queue_family_index: 7,
        framebuffer: Framebuffer {
            render_pass: RenderPass { color_format: Format::B8G8R8A8_SRGB, samples: 1 },
            image_index,
            extent: SIZE,
        },
        clear_color: ClearColor { red: 0, green: 68, blue: 100, alpha: 100 },
    }
}

fn acquired(image_index: u32) -> FrameEvent {
    FrameEvent::Acquired { image_index, suboptimal: false }
}

/// Takes the engine to the phase in which the image is submitted.
fn submitted(engine: &mut Graphicengine, flag: &mut bool, image_index: u32) {
    engine.render(FrameEvent::RedrawRequested, flag);
    engine.render(acquired(image_index), flag);
    engine.render(FrameEvent::Recorded, flag);
    assert_eq!(engine.phase(), Phase::Submitted { image_index });
}

#[test]
fn the_clear_colour_is_sky_blue() {
    assert_eq!(ClearColor::sky_blue(), ClearColor { red: 0, green: 68, blue: 100, alpha: 100 });
}

#[test]
fn a_frame_from_idle_to_idle() {
    let mut engine = engine();
    let mut flag = false;
    assert_eq!(
        engine.render(FrameEvent::RedrawRequested, &mut flag),
        FrameAction::ReclaimAndAcquire
    );
    assert_eq!(engine.phase(), Phase::Acquiring);
    assert_eq!(engine.render(acquired(1), &mut flag), record(1));
    assert_eq!(engine.phase(), Phase::Recording { image_index: 1 });
    assert_eq!(
        engine.render(FrameEvent::Recorded, &mut flag),
        FrameAction::Submit { image_index: 1 }
    );
    assert_eq!(engine.phase(), Phase::Submitted { image_index: 1 });
    assert_eq!(engine.previous_frame_end(), InFlightFuture::Complete);
    assert_eq!(engine.render(FrameEvent::Flushed, &mut flag), FrameAction::Store);
    assert_eq!(engine.phase(), Phase::Idle);
    assert_eq!(engine.previous_frame_end(), InFlightFuture::Pending);
    assert!(!flag);
}

#[test]
fn three_frames_without_resize() {
    let mut engine = engine();
    let mut flag = false;
    let mut acquires = 0;
    let mut records = 0;
    let mut submits = 0;
    let mut stores = 0;
    for image_index in [0u32, 1, 2] {
        let mut event = FrameEvent::RedrawRequested;
        loop {
            match engine.render(event, &mut flag) {
                FrameAction::ReclaimAndAcquire => {
                    acquires += 1;
                    event = acquired(image_index);
                },
                FrameAction::Record { queue_family_index, framebuffer, clear_color } => {
                    records += 1;
                    assert_eq!(queue_family_index, 7);
                    assert_eq!(framebuffer, engine.framebuffers()[image_index as usize]);
                    assert_eq!(framebuffer.image_index, image_index as usize);
                    assert_eq!(
                        clear_color,
                        ClearColor { red: 0, green: 68, blue: 100, alpha: 100 }
                    );
                    event = FrameEvent::Recorded;
                },
                FrameAction::Submit { image_index: presented } => {
                    submits += 1;
                    assert_eq!(presented, image_index);
                    event = FrameEvent::Flushed;
                },
                FrameAction::Store => {
                    stores += 1;
                    break;
                },
                other => panic!("{:?}", other),
            }
        }
        assert_eq!(stores, image_index + 1);
        assert_eq!(engine.previous_frame_end(), InFlightFuture::Pending);
        assert_eq!(engine.phase(), Phase::Idle);
    }
    assert_eq!((acquires, records, submits, stores), (3, 3, 3, 3));
    assert!(!flag);
}

#[test]
fn out_of_date_on_acquire_skips_the_frame() {
    let mut engine = engine();
    let mut flag = false;
    engine.render(FrameEvent::RedrawRequested, &mut flag);
    assert_eq!(engine.render(FrameEvent::AcquireOutOfDate, &mut flag), FrameAction::Skip);
    assert!(flag);
    assert_eq!(engine.phase(), Phase::Idle);
    assert_eq!(engine.previous_frame_end(), InFlightFuture::Complete);
    assert_eq!(
        engine.render(FrameEvent::Recorded, &mut flag),
        FrameAction::Abort(Fatal::OutOfTurn)
    );
    assert_eq!(
        engine.render(FrameEvent::Flushed, &mut flag),
        FrameAction::Abort(Fatal::OutOfTurn)
    );
}

#[test]
fn out_of_date_on_acquire_keeps_the_work_in_flight() {
    let mut engine = engine();
    let mut flag = false;
    submitted(&mut engine, &mut flag, 0);
    engine.render(FrameEvent::Flushed, &mut flag);
    engine.render(FrameEvent::RedrawRequested, &mut flag);
    assert_eq!(engine.render(FrameEvent::AcquireOutOfDate, &mut flag), FrameAction::Skip);
    assert_eq!(engine.previous_frame_end(), InFlightFuture::Pending);
}

#[test]
fn a_suboptimal_image_is_still_presented() {
    let mut engine = engine();
    let mut flag = false;
    engine.render(FrameEvent::RedrawRequested, &mut flag);
    assert_eq!(
        engine.render(FrameEvent::Acquired { image_index: 2, suboptimal: true }, &mut flag),
        record(2)
    );
    assert!(flag);
    assert_eq!(
        engine.render(FrameEvent::Recorded, &mut flag),
        FrameAction::Submit { image_index: 2 }
    );
    assert_eq!(engine.render(FrameEvent::Flushed, &mut flag), FrameAction::Store);
    assert!(flag);
}

#[test]
fn a_frame_never_clears_the_flag() {
    let mut engine = engine();
    let mut flag = true;
    submitted(&mut engine, &mut flag, 0);
    assert!(flag);
    engine.render(FrameEvent::Flushed, &mut flag);
    assert!(flag);
}

#[test]
fn out_of_date_on_flush_resets_the_work_in_flight() {
    let mut engine = engine();
    let mut flag = false;
    submitted(&mut engine, &mut flag, 0);
    engine.render(FrameEvent::Flushed, &mut flag);
    assert_eq!(engine.previous_frame_end(), InFlightFuture::Pending);
    submitted(&mut engine, &mut flag, 1);
    assert_eq!(engine.render(FrameEvent::FlushOutOfDate, &mut flag), FrameAction::Reset);
    assert!(flag);
    assert_eq!(engine.previous_frame_end(), InFlightFuture::Complete);
    assert_eq!(engine.phase(), Phase::Idle);
}

#[test]
fn another_failure_of_the_flush_is_reported_and_the_engine_goes_on() {
    let mut engine = engine();
    let mut flag = false;
    submitted(&mut engine, &mut flag, 0);
    engine.render(FrameEvent::Flushed, &mut flag);
    submitted(&mut engine, &mut flag, 1);
    assert_eq!(engine.render(FrameEvent::FlushFailed, &mut flag), FrameAction::ReportAndReset);
    assert!(!flag);
    assert_eq!(engine.previous_frame_end(), InFlightFuture::Complete);
    assert_eq!(engine.phase(), Phase::Idle);
    assert_eq!(
        engine.render(FrameEvent::RedrawRequested, &mut flag),
        FrameAction::ReclaimAndAcquire
    );
}

#[test]
fn a_failed_acquisition_is_fatal() {
    let mut engine = engine();
    let mut flag = false;
    engine.render(FrameEvent::RedrawRequested, &mut flag);
    assert_eq!(
        engine.render(FrameEvent::AcquireFailed, &mut flag),
        FrameAction::Abort(Fatal::AcquireFailed)
    );
    assert!(!flag);
    assert_eq!(engine.phase(), Phase::Acquiring);
}

#[test]
fn an_image_without_framebuffer_is_fatal() {
    let mut engine = engine();
    let mut flag = false;
    engine.render(FrameEvent::RedrawRequested, &mut flag);
    assert_eq!(
        engine.render(FrameEvent::Acquired { image_index: 3, suboptimal: true }, &mut flag),
        FrameAction::Abort(Fatal::NoFramebuffer)
    );
    assert!(!flag);
    assert_eq!(engine.phase(), Phase::Acquiring);
}

#[test]
fn a_failed_recording_is_fatal() {
    let mut engine = engine();
    let mut flag = false;
    engine.render(FrameEvent::RedrawRequested, &mut flag);
    engine.render(acquired(0), &mut flag);
    assert_eq!(
        engine.render(FrameEvent::RecordFailed, &mut flag),
        FrameAction::Abort(Fatal::RecordFailed)
    );
    assert_eq!(engine.phase(), Phase::Recording { image_index: 0 });
}

#[test]
fn a_refused_submission_is_fatal() {
    let mut engine = engine();
    let mut flag = false;
    submitted(&mut engine, &mut flag, 2);
    assert_eq!(
        engine.render(FrameEvent::SubmitFailed, &mut flag),
        FrameAction::Abort(Fatal::SubmitFailed)
    );
    assert_eq!(engine.phase(), Phase::Submitted { image_index: 2 });
    assert_eq!(engine.previous_frame_end(), InFlightFuture::Complete);
}

#[test]
fn an_event_out_of_turn_changes_nothing() {
    let mut engine = engine();
    let mut flag = false;
    for event in [
        acquired(0),
        FrameEvent::AcquireOutOfDate,
        FrameEvent::AcquireFailed,
        FrameEvent::Recorded,
        FrameEvent::RecordFailed,
        FrameEvent::Flushed,
        FrameEvent::FlushOutOfDate,
        FrameEvent::FlushFailed,
        FrameEvent::SubmitFailed,
    ] {
        assert_eq!(engine.render(event, &mut flag), FrameAction::Abort(Fatal::OutOfTurn));
        assert_eq!(engine.phase(), Phase::Idle);
        assert!(!flag);
    }
    engine.render(FrameEvent::RedrawRequested, &mut flag);
    assert_eq!(
        engine.render(FrameEvent::RedrawRequested, &mut flag),
        FrameAction::Abort(Fatal::OutOfTurn)
    );
    assert_eq!(engine.phase(), Phase::Acquiring);
}

#[test]
fn no_frame_during_a_recreation() {
    let mut engine = engine();
    let mut flag = true;
    engine.recreate_swapchain(ResizeEvent::Requested { window_extent: SIZE }, &mut flag);
    assert_eq!(
        engine.render(FrameEvent::RedrawRequested, &mut flag),
        FrameAction::Abort(Fatal::OutOfTurn)
    );
    assert_eq!(engine.phase(), Phase::Resizing);
}
