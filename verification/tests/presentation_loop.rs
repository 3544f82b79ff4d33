use vulkano_triangle::framebuffers::FramebufferSlot;
use vulkano_triangle::framebuffers::window_size_dependent_setup;
use vulkano_triangle::geometry::ClearColor;
use vulkano_triangle::geometry::Extent;
use vulkano_triangle::geometry::Viewport;
use vulkano_triangle::geometry::clear_color;
use vulkano_triangle::geometry::viewport_for;
use vulkano_triangle::presentation::AcquireOutcome;
use vulkano_triangle::presentation::AcquireStep;
use vulkano_triangle::presentation::EventResponse;
use vulkano_triangle::presentation::FrameFence;
use vulkano_triangle::presentation::LoopEvent;
use vulkano_triangle::presentation::PresentationLoop;
use vulkano_triangle::presentation::RecreateOutcome;
use vulkano_triangle::presentation::RecreateStep;
use vulkano_triangle::presentation::RedrawPlan;
use vulkano_triangle::presentation::SubmitOutcome;

fn extent(width: u32, height: u32) -> Extent {
    Extent { width, height }
}

/// Drives one normal frame to completion: redraw, acquire image 0,
/// submit, complete.
fn run_one_frame(state: &mut PresentationLoop) {
    let response = state.handle_event(LoopEvent::RedrawRequested);
    assert_eq!(
        response,
        EventResponse::Redraw { plan: RedrawPlan::AcquireImage }
    );
    let step = state.apply_acquire_outcome(AcquireOutcome::Acquired { image_index: 0 });
    assert_eq!(step, AcquireStep::Draw { image_index: 0 });
    let _submission = state.plan_submission(0);
    state.complete_submission(SubmitOutcome::Completed);
}

#[test]
fn initial_state() {
    let state = PresentationLoop::new(3, extent(800, 600));
    assert_eq!(state.swapchain_generation, 0);
    assert_eq!(state.framebuffer_generation, 0);
    assert_eq!(state.image_count, 3);
    assert_eq!(state.framebuffers.len(), 3);
    assert!(!state.stale);
    assert!(!state.closed);
    assert_eq!(state.frames_submitted, 0);
    assert_eq!(state.fence, FrameFence::AlreadyComplete);
    assert_eq!(
        state.viewport,
        Viewport { x: 0, y: 0, width: 800, height: 600 }
    );
}

#[test]
fn framebuffer_setup_exact_values() {
    let (framebuffers, viewport) = window_size_dependent_setup(7, 2, extent(640, 480));
    assert_eq!(framebuffers.len(), 2);
    assert_eq!(
        framebuffers[0],
        FramebufferSlot { generation: 7, image_index: 0 }
    );
    assert_eq!(
        framebuffers[1],
        FramebufferSlot { generation: 7, image_index: 1 }
    );
    assert_eq!(viewport, Viewport { x: 0, y: 0, width: 640, height: 480 });
}

#[test]
fn framebuffer_setup_empty() {
    let (framebuffers, viewport) = window_size_dependent_setup(1, 0, extent(1, 1));
    assert_eq!(framebuffers.len(), 0);
    assert_eq!(viewport, Viewport { x: 0, y: 0, width: 1, height: 1 });
}

#[test]
fn viewport_covers_surface() {
    assert_eq!(
        viewport_for(extent(1920, 1080)),
        Viewport { x: 0, y: 0, width: 1920, height: 1080 }
    );
}

#[test]
fn clear_color_is_opaque_blue() {
    assert_eq!(
        clear_color(),
        ClearColor { red: 0, green: 0, blue: 1, alpha: 1 }
    );
}

#[test]
fn fence_monotonic_over_two_frames() {
    let mut state = PresentationLoop::new(2, extent(800, 600));

    // Frame 1 waits on the startup no-op handle.
    let response = state.handle_event(LoopEvent::RedrawRequested);
    assert_eq!(
        response,
        EventResponse::Redraw { plan: RedrawPlan::AcquireImage }
    );
    let step = state.apply_acquire_outcome(AcquireOutcome::Acquired { image_index: 1 });
    assert_eq!(step, AcquireStep::Draw { image_index: 1 });
    let first = state.plan_submission(1);
    assert_eq!(first.frame, 1);
    assert_eq!(first.waits_on, FrameFence::AlreadyComplete);
    state.complete_submission(SubmitOutcome::Completed);
    assert_eq!(state.frames_submitted, 1);
    assert_eq!(state.fence, FrameFence::Pending { frame: 1 });

    // Frame 2 waits on frame 1's fence.
    state.apply_acquire_outcome(AcquireOutcome::Acquired { image_index: 0 });
    let second = state.plan_submission(0);
    assert_eq!(second.frame, 2);
    assert_eq!(second.waits_on, FrameFence::Pending { frame: 1 });
    state.complete_submission(SubmitOutcome::Completed);
    assert_eq!(state.fence, FrameFence::Pending { frame: 2 });
}

#[test]
fn recreation_rebuilds_framebuffers_with_generation() {
    let mut state = PresentationLoop::new(3, extent(800, 600));
    state.handle_event(LoopEvent::Resized { extent: extent(1024, 768) });
    assert!(state.stale);

    let step = state.apply_recreate_outcome(RecreateOutcome::Created { image_count: 4 });
    assert_eq!(step, RecreateStep::ProceedToAcquire);
    assert_eq!(state.swapchain_generation, 1);
    assert_eq!(state.framebuffer_generation, 1);
    assert_eq!(state.image_count, 4);
    assert_eq!(state.framebuffers.len(), 4);
    for (i, slot) in state.framebuffers.iter().enumerate() {
        assert_eq!(*slot, FramebufferSlot { generation: 1, image_index: i });
    }
    assert_eq!(state.swapchain_extent, extent(1024, 768));
    assert_eq!(
        state.viewport,
        Viewport { x: 0, y: 0, width: 1024, height: 768 }
    );
    assert!(!state.stale);

    // The submission against the new swapchain is bound to a framebuffer
    // of the new generation.
    let submission = state.plan_submission(2);
    assert_eq!(
        submission.framebuffer,
        FramebufferSlot { generation: 1, image_index: 2 }
    );
}

#[test]
fn resize_collapses_to_last_writer() {
    let mut state = PresentationLoop::new(3, extent(800, 600));
    state.handle_event(LoopEvent::Resized { extent: extent(100, 100) });
    state.handle_event(LoopEvent::Resized { extent: extent(500, 400) });
    state.handle_event(LoopEvent::Resized { extent: extent(1024, 768) });

    // One recreation is planned, at the last reported size.
    let response = state.handle_event(LoopEvent::RedrawRequested);
    assert_eq!(
        response,
        EventResponse::Redraw {
            plan: RedrawPlan::Recreate { extent: extent(1024, 768) }
        }
    );
    let step = state.apply_recreate_outcome(RecreateOutcome::Created { image_count: 3 });
    assert_eq!(step, RecreateStep::ProceedToAcquire);
    assert_eq!(state.swapchain_generation, 1);
    assert_eq!(state.swapchain_extent, extent(1024, 768));

    // The staleness is consumed: the next redraw acquires directly, so
    // the three notifications led to exactly one recreation.
    let next = state.handle_event(LoopEvent::RedrawRequested);
    assert_eq!(next, EventResponse::Redraw { plan: RedrawPlan::AcquireImage });
}

#[test]
fn unsupported_dimensions_skip_frame_and_stay_stale() {
    let mut state = PresentationLoop::new(3, extent(800, 600));
    state.handle_event(LoopEvent::Resized { extent: extent(0, 0) });

    let response = state.handle_event(LoopEvent::RedrawRequested);
    assert_eq!(
        response,
        EventResponse::Redraw { plan: RedrawPlan::Recreate { extent: extent(0, 0) } }
    );
    let step = state.apply_recreate_outcome(RecreateOutcome::DimensionsUnsupported);
    assert_eq!(step, RecreateStep::SkipFrame);

    // No draw happened: nothing was submitted, the generation did not
    // move, and the state is still stale for the next cycle.
    assert_eq!(state.frames_submitted, 0);
    assert_eq!(state.swapchain_generation, 0);
    assert!(state.stale);
    let next = state.handle_event(LoopEvent::RedrawRequested);
    assert_eq!(
        next,
        EventResponse::Redraw { plan: RedrawPlan::Recreate { extent: extent(0, 0) } }
    );
}

#[test]
fn acquire_out_of_date_aborts_frame() {
    let mut state = PresentationLoop::new(3, extent(800, 600));
    let step = state.apply_acquire_outcome(AcquireOutcome::OutOfDate);
    assert_eq!(step, AcquireStep::SkipFrame);
    assert!(state.stale);
    assert_eq!(state.frames_submitted, 0);
    assert_eq!(state.swapchain_generation, 0);
}

#[test]
fn present_out_of_date_resets_fence() {
    let mut state = PresentationLoop::new(2, extent(800, 600));
    run_one_frame(&mut state);
    assert_eq!(state.fence, FrameFence::Pending { frame: 1 });

    // The second frame's flush reports out of date: the submission never
    // executed, so the retained handle must not point at it.
    state.apply_acquire_outcome(AcquireOutcome::Acquired { image_index: 0 });
    let submission = state.plan_submission(0);
    assert_eq!(submission.frame, 2);
    state.complete_submission(SubmitOutcome::OutOfDate);
    assert_eq!(state.frames_submitted, 1);
    assert_eq!(state.fence, FrameFence::AlreadyComplete);
    assert!(state.stale);
}

#[test]
fn other_flush_failure_degrades_to_recreation() {
    let mut state = PresentationLoop::new(2, extent(800, 600));
    state.apply_acquire_outcome(AcquireOutcome::Acquired { image_index: 0 });
    state.plan_submission(0);
    state.complete_submission(SubmitOutcome::OtherFailure);
    assert!(state.stale);
    assert_eq!(state.fence, FrameFence::AlreadyComplete);
    assert_eq!(state.frames_submitted, 0);
    let next = state.handle_event(LoopEvent::RedrawRequested);
    assert_eq!(
        next,
        EventResponse::Redraw { plan: RedrawPlan::Recreate { extent: extent(800, 600) } }
    );
}

#[test]
fn minimise_and_restore() {
    // A window resized from 800×600 to 0×0 (minimised) and back: the
    // unsupported size is absorbed frame after frame, and rendering
    // resumes once the size is valid again.
    let mut state = PresentationLoop::new(3, extent(800, 600));
    run_one_frame(&mut state);

    state.handle_event(LoopEvent::Resized { extent: extent(0, 0) });
    for _ in 0..3 {
        let response = state.handle_event(LoopEvent::RedrawRequested);
        assert_eq!(
            response,
            EventResponse::Redraw { plan: RedrawPlan::Recreate { extent: extent(0, 0) } }
        );
        let step = state.apply_recreate_outcome(RecreateOutcome::DimensionsUnsupported);
        assert_eq!(step, RecreateStep::SkipFrame);
        assert!(state.stale);
    }

    state.handle_event(LoopEvent::Resized { extent: extent(800, 600) });
    let response = state.handle_event(LoopEvent::RedrawRequested);
    assert_eq!(
        response,
        EventResponse::Redraw { plan: RedrawPlan::Recreate { extent: extent(800, 600) } }
    );
    let step = state.apply_recreate_outcome(RecreateOutcome::Created { image_count: 3 });
    assert_eq!(step, RecreateStep::ProceedToAcquire);
    let astep = state.apply_acquire_outcome(AcquireOutcome::Acquired { image_index: 1 });
    assert_eq!(astep, AcquireStep::Draw { image_index: 1 });
    let submission = state.plan_submission(1);
    assert_eq!(submission.frame, 2);
    assert_eq!(submission.waits_on, FrameFence::Pending { frame: 1 });
    assert_eq!(
        submission.framebuffer,
        FramebufferSlot { generation: 1, image_index: 1 }
    );
    state.complete_submission(SubmitOutcome::Completed);
    assert_eq!(state.frames_submitted, 2);
    assert!(!state.stale);
}

#[test]
fn close_mid_frame_completes_submission_then_exits() {
    // A close request delivered after acquire but before submit: the
    // in-flight frame still completes its submission and present, and the
    // loop exits before any further frame.
    let mut state = PresentationLoop::new(2, extent(800, 600));
    let response = state.handle_event(LoopEvent::RedrawRequested);
    assert_eq!(
        response,
        EventResponse::Redraw { plan: RedrawPlan::AcquireImage }
    );
    let step = state.apply_acquire_outcome(AcquireOutcome::Acquired { image_index: 0 });
    assert_eq!(step, AcquireStep::Draw { image_index: 0 });

    let close = state.handle_event(LoopEvent::CloseRequested);
    assert_eq!(close, EventResponse::Exit);
    assert!(state.closed);

    // The frame already begun is still submitted and presented.
    let submission = state.plan_submission(0);
    assert_eq!(submission.frame, 1);
    state.complete_submission(SubmitOutcome::Completed);
    assert_eq!(state.frames_submitted, 1);
    assert_eq!(state.fence, FrameFence::Pending { frame: 1 });

    // No further frame begins.
    let idle = state.handle_event(LoopEvent::EventsCleared);
    assert_eq!(idle, EventResponse::Exit);
    let redraw = state.handle_event(LoopEvent::RedrawRequested);
    assert_eq!(redraw, EventResponse::Exit);
}

#[test]
fn idle_cycle_requests_redraw() {
    let mut state = PresentationLoop::new(2, extent(800, 600));
    let response = state.handle_event(LoopEvent::EventsCleared);
    assert_eq!(response, EventResponse::RequestRedraw);
    let ignored = state.handle_event(LoopEvent::Other);
    assert_eq!(ignored, EventResponse::Continue);
    assert!(!state.stale);
    assert!(!state.closed);
}
