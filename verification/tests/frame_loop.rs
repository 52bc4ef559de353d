use quad_renderer::commands::CommandBufferUsage;
use quad_renderer::frame_loop::{
    AcquireOutcome, Action, CompletionToken, Event, Fatal, FlushOutcome, FrameLoop, Phase,
    RebuildFlag,
};
use quad_renderer::surface::{
    CompositeAlphaSupport, Extent, SurfaceCapabilities, SwapchainConfig,
};
use quad_renderer::swapchain::{RecreateOutcome, SwapchainImage, SwapchainManager};
use vulkano::format::Format;

fn extent(width: u32, height: u32) -> Extent {
    Extent { width, height }
}

fn images(count: usize, width: u32, height: u32) -> Vec<SwapchainImage> {
    vec![
        SwapchainImage {
            dimensions: extent(width, height)
        };
        count
    ]
}

fn config(width: u32, height: u32) -> SwapchainConfig {
    let caps = SurfaceCapabilities {
        min_image_count: 2,
        supported_composite_alpha: CompositeAlphaSupport {
            opaque: true,
            pre_multiplied: false,
            post_multiplied: false,
            inherit: false,
        },
        supported_formats: vec![Format::B8G8R8A8_UNORM],
    };
    SwapchainConfig::for_surface(&caps, extent(width, height)).unwrap()
}

fn new_loop() -> FrameLoop {
    FrameLoop::new(SwapchainManager::create(config(800, 600), images(2, 800, 600)).unwrap())
}

fn redraw(width: u32, height: u32) -> Event {
    Event::RedrawRequested {
        window_extent: extent(width, height),
    }
}

fn acquired(image_index: usize, suboptimal: bool) -> Event {
    Event::ImageAcquired(AcquireOutcome::Acquired {
        image_index,
        suboptimal,
    })
}

/// Drives the loop to the point where the next image has been asked for.
fn loop_acquiring() -> FrameLoop {
    let mut frame_loop = new_loop();
    assert_eq!(frame_loop.step(redraw(800, 600)), Action::CollectGarbage);
    assert_eq!(frame_loop.step(Event::GarbageCollected), Action::AcquireImage { timeout: None });
    frame_loop
}

/// Drives the loop to the point where a frame has been submitted.
fn loop_submitted() -> FrameLoop {
    let mut frame_loop = loop_acquiring();
    frame_loop.step(acquired(0, false));
    frame_loop.step(Event::CommandsRecorded);
    assert_eq!(frame_loop.phase(), Phase::Submitted { image_index: 0 });
    frame_loop
}

/// Runs one whole frame that goes well, on the image at `image_index`.
fn run_frame(frame_loop: &mut FrameLoop, width: u32, height: u32, image_index: usize) {
    assert_eq!(frame_loop.step(redraw(width, height)), Action::CollectGarbage);
    assert_eq!(frame_loop.step(Event::GarbageCollected), Action::AcquireImage { timeout: None });
    assert!(matches!(
        frame_loop.step(acquired(image_index, false)),
        Action::Record { .. }
    ));
    assert!(matches!(
        frame_loop.step(Event::CommandsRecorded),
        Action::Submit { .. }
    ));
    assert_eq!(
        frame_loop.step(Event::FrameFlushed(FlushOutcome::Flushed)),
        Action::Nothing
    );
}

#[test]
fn loop_starts_idle_with_satisfied_token() {
    let frame_loop = new_loop();
    assert_eq!(frame_loop.phase(), Phase::Idle);
    assert_eq!(frame_loop.rebuild(), RebuildFlag::Stable);
    assert_eq!(
        frame_loop.previous_frame_end(),
        Some(CompletionToken::AlreadySatisfied)
    );
    assert_eq!(frame_loop.swapchain().extent(), extent(800, 600));
}

#[test]
fn frame_runs_through_all_steps() {
    let mut frame_loop = new_loop();
    assert_eq!(frame_loop.step(redraw(800, 600)), Action::CollectGarbage);
    assert_eq!(
        frame_loop.phase(),
        Phase::Collecting {
            window_extent: extent(800, 600)
        }
    );
    assert_eq!(frame_loop.step(Event::GarbageCollected), Action::AcquireImage { timeout: None });
    assert_eq!(frame_loop.phase(), Phase::Acquiring);
    assert_eq!(
        frame_loop.step(acquired(1, false)),
        Action::Record {
            usage: CommandBufferUsage::OneTimeSubmit,
            framebuffer: 1,
            viewport: frame_loop.swapchain().viewport(),
        }
    );
    assert_eq!(frame_loop.phase(), Phase::Recording { image_index: 1 });
    assert_eq!(
        frame_loop.step(Event::CommandsRecorded),
        Action::Submit {
            wait_for: CompletionToken::AlreadySatisfied,
            image_index: 1,
        }
    );
    assert_eq!(frame_loop.phase(), Phase::Submitted { image_index: 1 });
    assert_eq!(frame_loop.previous_frame_end(), None);
    assert_eq!(
        frame_loop.step(Event::FrameFlushed(FlushOutcome::Flushed)),
        Action::Nothing
    );
    assert_eq!(frame_loop.phase(), Phase::Idle);
    assert_eq!(frame_loop.rebuild(), RebuildFlag::Stable);
    assert_eq!(
        frame_loop.previous_frame_end(),
        Some(CompletionToken::FrameSubmitted)
    );
}

#[test]
fn next_frame_waits_for_the_previous_one() {
    let mut frame_loop = new_loop();
    run_frame(&mut frame_loop, 800, 600, 0);
    frame_loop.step(redraw(800, 600));
    frame_loop.step(Event::GarbageCollected);
    frame_loop.step(acquired(1, false));
    assert_eq!(
        frame_loop.step(Event::CommandsRecorded),
        Action::Submit {
            wait_for: CompletionToken::FrameSubmitted,
            image_index: 1,
        }
    );
}

#[test]
fn close_request_leaves_the_loop() {
    let mut frame_loop = new_loop();
    assert_eq!(frame_loop.step(Event::CloseRequested), Action::Exit);
    assert_eq!(frame_loop.phase(), Phase::Idle);
    let mut frame_loop = loop_submitted();
    assert_eq!(frame_loop.step(Event::CloseRequested), Action::Exit);
    assert_eq!(frame_loop.phase(), Phase::Submitted { image_index: 0 });
}

#[test]
fn garbage_collection_without_outstanding_work_is_a_no_op() {
    let mut frame_loop = new_loop();
    frame_loop.step(redraw(800, 600));
    let framebuffers = frame_loop.swapchain().framebuffers().clone();
    frame_loop.step(Event::GarbageCollected);
    assert_eq!(
        frame_loop.previous_frame_end(),
        Some(CompletionToken::AlreadySatisfied)
    );
    assert_eq!(frame_loop.rebuild(), RebuildFlag::Stable);
    assert_eq!(frame_loop.swapchain().framebuffers(), &framebuffers);
    // Reported once more, it changes nothing and asks for nothing.
    assert_eq!(frame_loop.step(Event::GarbageCollected), Action::Nothing);
    assert_eq!(frame_loop.phase(), Phase::Acquiring);
    assert_eq!(
        frame_loop.previous_frame_end(),
        Some(CompletionToken::AlreadySatisfied)
    );
    assert_eq!(frame_loop.rebuild(), RebuildFlag::Stable);
}

#[test]
fn resize_between_frames_recreates_at_400_by_300() {
    let mut frame_loop = new_loop();
    run_frame(&mut frame_loop, 800, 600, 0);
    assert_eq!(frame_loop.step(Event::Resized), Action::Nothing);
    assert_eq!(frame_loop.rebuild(), RebuildFlag::NeedsRebuild);
    assert_eq!(frame_loop.step(redraw(400, 300)), Action::CollectGarbage);
    assert_eq!(
        frame_loop.step(Event::GarbageCollected),
        Action::RecreateSwapchain(config(400, 300))
    );
    assert_eq!(
        frame_loop.phase(),
        Phase::Rebuilding {
            extent: extent(400, 300)
        }
    );
    assert_eq!(
        frame_loop.step(Event::SwapchainRecreated(RecreateOutcome::Built(images(
            2, 400, 300
        )))),
        Action::AcquireImage { timeout: None }
    );
    assert_eq!(frame_loop.rebuild(), RebuildFlag::Stable);
    assert_eq!(
        frame_loop.step(acquired(0, false)),
        Action::Record {
            usage: CommandBufferUsage::OneTimeSubmit,
            framebuffer: 0,
            viewport: frame_loop.swapchain().viewport(),
        }
    );
    frame_loop.step(Event::CommandsRecorded);
    frame_loop.step(Event::FrameFlushed(FlushOutcome::Flushed));
    // Until the next resize every frame finds the framebuffers at 400 by 300.
    for frame in 0..3 {
        run_frame(&mut frame_loop, 400, 300, frame % 2);
        assert_eq!(frame_loop.swapchain().framebuffers().len(), 2);
        for framebuffer in frame_loop.swapchain().framebuffers() {
            assert_eq!(framebuffer.extent, extent(400, 300));
        }
        assert_eq!(
            frame_loop.swapchain().viewport().dimensions,
            extent(400, 300)
        );
        assert_eq!(frame_loop.rebuild(), RebuildFlag::Stable);
    }
}

#[test]
fn unsupported_extent_is_retried_on_the_next_redraw() {
    let mut frame_loop = new_loop();
    frame_loop.step(Event::Resized);
    frame_loop.step(redraw(0, 0));
    assert_eq!(
        frame_loop.step(Event::GarbageCollected),
        Action::RecreateSwapchain(config(0, 0))
    );
    let framebuffers = frame_loop.swapchain().framebuffers().clone();
    assert_eq!(
        frame_loop.step(Event::SwapchainRecreated(
            RecreateOutcome::UnsupportedExtent
        )),
        Action::Nothing
    );
    assert_eq!(frame_loop.phase(), Phase::Idle);
    assert_eq!(frame_loop.rebuild(), RebuildFlag::NeedsRebuild);
    assert_eq!(frame_loop.swapchain().config(), config(800, 600));
    assert_eq!(frame_loop.swapchain().images(), &images(2, 800, 600));
    assert_eq!(frame_loop.swapchain().framebuffers(), &framebuffers);
    assert_eq!(
        frame_loop.swapchain().viewport().dimensions,
        extent(800, 600)
    );
    assert_eq!(
        frame_loop.previous_frame_end(),
        Some(CompletionToken::AlreadySatisfied)
    );
    // The next redraw tries again, with the size the window has then.
    assert_eq!(frame_loop.step(redraw(640, 480)), Action::CollectGarbage);
    assert_eq!(
        frame_loop.step(Event::GarbageCollected),
        Action::RecreateSwapchain(config(640, 480))
    );
}

#[test]
fn failed_recreation_is_fatal() {
    let mut frame_loop = new_loop();
    frame_loop.step(Event::Resized);
    frame_loop.step(redraw(400, 300));
    frame_loop.step(Event::GarbageCollected);
    assert_eq!(
        frame_loop.step(Event::SwapchainRecreated(RecreateOutcome::Failed)),
        Action::Abort(Fatal::SwapchainRecreation)
    );
    assert_eq!(
        frame_loop.step(Event::SwapchainRecreated(RecreateOutcome::Built(images(
            2, 800, 600
        )))),
        Action::Abort(Fatal::SwapchainRecreation)
    );
    assert_eq!(frame_loop.swapchain().extent(), extent(800, 600));
}

#[test]
fn out_of_date_acquisition_skips_the_frame() {
    let mut frame_loop = loop_acquiring();
    assert_eq!(
        frame_loop.step(Event::ImageAcquired(AcquireOutcome::OutOfDate)),
        Action::Nothing
    );
    assert_eq!(frame_loop.phase(), Phase::Idle);
    assert_eq!(frame_loop.rebuild(), RebuildFlag::NeedsRebuild);
    // Nothing is recorded or submitted for this frame, whatever is reported.
    assert_eq!(frame_loop.step(Event::CommandsRecorded), Action::Nothing);
    assert_eq!(
        frame_loop.step(Event::FrameFlushed(FlushOutcome::Flushed)),
        Action::Nothing
    );
    assert_eq!(frame_loop.phase(), Phase::Idle);
    assert_eq!(
        frame_loop.previous_frame_end(),
        Some(CompletionToken::AlreadySatisfied)
    );
    // The next frame begins with the rebuild.
    frame_loop.step(redraw(800, 600));
    assert_eq!(
        frame_loop.step(Event::GarbageCollected),
        Action::RecreateSwapchain(config(800, 600))
    );
}

#[test]
fn suboptimal_acquisition_draws_and_flags_rebuild() {
    let mut frame_loop = loop_acquiring();
    assert_eq!(
        frame_loop.step(acquired(1, true)),
        Action::Record {
            usage: CommandBufferUsage::OneTimeSubmit,
            framebuffer: 1,
            viewport: frame_loop.swapchain().viewport(),
        }
    );
    assert_eq!(frame_loop.rebuild(), RebuildFlag::NeedsRebuild);
    assert_eq!(
        frame_loop.step(Event::CommandsRecorded),
        Action::Submit {
            wait_for: CompletionToken::AlreadySatisfied,
            image_index: 1,
        }
    );
    frame_loop.step(Event::FrameFlushed(FlushOutcome::Flushed));
    assert_eq!(frame_loop.rebuild(), RebuildFlag::NeedsRebuild);
    assert_eq!(
        frame_loop.previous_frame_end(),
        Some(CompletionToken::FrameSubmitted)
    );
}

#[test]
fn failed_acquisition_is_fatal() {
    let mut frame_loop = loop_acquiring();
    assert_eq!(
        frame_loop.step(Event::ImageAcquired(AcquireOutcome::Failed)),
        Action::Abort(Fatal::ImageAcquisition)
    );
}

#[test]
fn image_index_beyond_the_chain_is_fatal() {
    let mut frame_loop = loop_acquiring();
    assert_eq!(
        frame_loop.step(acquired(2, false)),
        Action::Abort(Fatal::ImageOutOfRange)
    );
    assert_eq!(frame_loop.phase(), Phase::Acquiring);
}

#[test]
fn out_of_date_flush_resets_the_token() {
    let mut frame_loop = new_loop();
    run_frame(&mut frame_loop, 800, 600, 0);
    assert_eq!(
        frame_loop.previous_frame_end(),
        Some(CompletionToken::FrameSubmitted)
    );
    frame_loop.step(redraw(800, 600));
    frame_loop.step(Event::GarbageCollected);
    frame_loop.step(acquired(1, false));
    frame_loop.step(Event::CommandsRecorded);
    assert_eq!(
        frame_loop.step(Event::FrameFlushed(FlushOutcome::OutOfDate)),
        Action::Nothing
    );
    assert_eq!(
        frame_loop.previous_frame_end(),
        Some(CompletionToken::AlreadySatisfied)
    );
    assert_eq!(frame_loop.rebuild(), RebuildFlag::NeedsRebuild);
    assert_eq!(frame_loop.phase(), Phase::Idle);
}

#[test]
fn other_flush_failure_is_reported_and_the_loop_goes_on() {
    let mut frame_loop = loop_submitted();
    assert_eq!(
        frame_loop.step(Event::FrameFlushed(FlushOutcome::Failed)),
        Action::ReportFlushFailure
    );
    assert_eq!(
        frame_loop.previous_frame_end(),
        Some(CompletionToken::AlreadySatisfied)
    );
    assert_eq!(frame_loop.rebuild(), RebuildFlag::Stable);
    assert_eq!(frame_loop.phase(), Phase::Idle);
    run_frame(&mut frame_loop, 800, 600, 1);
    assert_eq!(
        frame_loop.previous_frame_end(),
        Some(CompletionToken::FrameSubmitted)
    );
}

#[test]
fn events_that_do_not_fit_the_phase_are_ignored() {
    let mut frame_loop = new_loop();
    assert_eq!(frame_loop.step(Event::GarbageCollected), Action::Nothing);
    assert_eq!(
        frame_loop.step(Event::SwapchainRecreated(RecreateOutcome::Built(images(
            2, 400, 300
        )))),
        Action::Nothing
    );
    assert_eq!(frame_loop.step(acquired(0, true)), Action::Nothing);
    assert_eq!(frame_loop.step(Event::CommandsRecorded), Action::Nothing);
    assert_eq!(
        frame_loop.step(Event::FrameFlushed(FlushOutcome::OutOfDate)),
        Action::Nothing
    );
    assert_eq!(frame_loop.phase(), Phase::Idle);
    assert_eq!(frame_loop.rebuild(), RebuildFlag::Stable);
    assert_eq!(frame_loop.swapchain().extent(), extent(800, 600));
    assert_eq!(
        frame_loop.previous_frame_end(),
        Some(CompletionToken::AlreadySatisfied)
    );
    // A redraw signal in the middle of a frame starts no second frame.
    let mut frame_loop = loop_acquiring();
    assert_eq!(frame_loop.step(redraw(1, 1)), Action::Nothing);
    assert_eq!(frame_loop.phase(), Phase::Acquiring);
}

#[test]
fn resize_in_the_middle_of_a_frame_is_remembered() {
    let mut frame_loop = loop_acquiring();
    assert_eq!(frame_loop.step(Event::Resized), Action::Nothing);
    assert_eq!(frame_loop.phase(), Phase::Acquiring);
    assert_eq!(frame_loop.rebuild(), RebuildFlag::NeedsRebuild);
}
