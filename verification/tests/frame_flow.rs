use korangar::context::{FrameContext, RenderSettings};
use korangar::error::RenderError;
use korangar::pass::PassKind;
use korangar::scheduler::{FrameScheduler, FrameStage, NextStep, PresentPlan};
use korangar::signal::{CompletionSignal, OrderingSignal, UploadSignal};
use korangar::surface::{AcquireOutcome, PresentOutcome, SubmitOutcome};
use korangar::target::TargetPhase;

fn quiet_frame() -> FrameContext {
    FrameContext {
        tick: 0,
        entity_count: 0,
        entity_hovered: false,
        hovered_has_name: false,
        overlay_changed: false,
        overlay_forced: false,
        clear_overlay: false,
        uses_uploads: false,
        settings: RenderSettings::new(),
    }
}

fn image(index: usize) -> AcquireOutcome {
    AcquireOutcome::Image { index, suboptimal: false }
}

fn signal(id: u64) -> CompletionSignal {
    CompletionSignal { id }
}

fn order(id: u64) -> OrderingSignal {
    OrderingSignal { id }
}

/// Runs one frame in which every submission succeeds and returns the
/// completion signals that the frame had to wait on.
fn run_frame(scheduler: &mut FrameScheduler, index: usize, ctx: &FrameContext) -> Vec<CompletionSignal> {
    assert!(scheduler.has_headroom());
    assert_eq!(scheduler.acquire_next(image(index)), Ok(index));
    let plan = scheduler.begin_passes(ctx, None);
    let joined = scheduler.join_passes(SubmitOutcome::Submitted, SubmitOutcome::Submitted, SubmitOutcome::Submitted);
    assert!(joined.is_ok());
    scheduler.join_signals();
    assert!(scheduler.finish_composite(SubmitOutcome::Submitted).is_ok());
    assert_eq!(scheduler.present(PresentOutcome::Presented), Ok(()));
    plan.waits
}

#[test]
fn new_scheduler_is_idle_and_valid() {
    let scheduler = FrameScheduler::new(3, 800, 600);
    assert_eq!(scheduler.stage(), FrameStage::Idle);
    assert!(!scheduler.needs_recreate());
    assert!(scheduler.has_headroom());
    assert!(scheduler.can_recreate());
    assert_eq!(scheduler.surface().image_count(), 3);
    assert_eq!(scheduler.surface().window_size(), (800, 600));
    assert_eq!(scheduler.surface().generation(), 0);
    assert_eq!(scheduler.surface().frame_counter(), 0);
    assert_eq!(scheduler.pool().image_count(), 3);
    assert_eq!(scheduler.frames_in_flight(), 0);
    assert_eq!(scheduler.gate().next_id(), 0);
    for kind in [PassKind::Scene, PassKind::Picker, PassKind::Shadow, PassKind::Overlay] {
        let target = scheduler.pool().get(kind, 0);
        assert_eq!(target.kind(), kind);
        assert_eq!(target.phase(), TargetPhase::Idle);
        assert_eq!(target.completion(), None);
        assert_eq!(target.rendered_frame(), None);
        assert_eq!((target.width(), target.height()), (800, 600));
    }
}

#[test]
fn frame_steps_follow_each_other_with_exact_signals() {
    let mut scheduler = FrameScheduler::new(2, 800, 600);
    let ctx = quiet_frame();

    assert_eq!(scheduler.acquire_next(image(0)), Ok(0));
    assert_eq!(scheduler.stage(), FrameStage::Acquired);
    assert_eq!(scheduler.surface().get_image_number(), Some(0));
    assert_eq!(scheduler.surface().acquire_signal(), Some(order(0)));
    assert_eq!(scheduler.gate().outstanding_count(), 1);

    let plan = scheduler.begin_passes(&ctx, None);
    assert_eq!(scheduler.stage(), FrameStage::Recording);
    assert_eq!(plan.image, 0);
    assert_eq!(plan.waits, vec![]);
    assert_eq!(plan.upload_waits, vec![]);
    assert!(!plan.overlay);
    assert_eq!(scheduler.pool().get(PassKind::Picker, 0).phase(), TargetPhase::Recording);
    assert_eq!(scheduler.pool().get(PassKind::Shadow, 0).phase(), TargetPhase::Recording);
    assert_eq!(scheduler.pool().get(PassKind::Scene, 0).phase(), TargetPhase::Recording);
    assert_eq!(scheduler.pool().get(PassKind::Overlay, 0).phase(), TargetPhase::Idle);
    assert_eq!(scheduler.pool().get(PassKind::Scene, 1).phase(), TargetPhase::Idle);

    let waits = scheduler.join_passes(SubmitOutcome::Submitted, SubmitOutcome::Submitted, SubmitOutcome::Aborted);
    assert_eq!(waits, Ok(vec![]));
    assert_eq!(scheduler.stage(), FrameStage::Joined);
    assert_eq!(scheduler.pool().get(PassKind::Picker, 0).completion(), Some(signal(1)));
    assert_eq!(scheduler.pool().get(PassKind::Shadow, 0).completion(), Some(signal(2)));
    assert_eq!(scheduler.pool().get(PassKind::Shadow, 0).rendered_frame(), Some(0));
    assert_eq!(scheduler.pool().get(PassKind::Scene, 0).phase(), TargetPhase::Recording);
    assert_eq!(scheduler.gate().outstanding_count(), 2);

    let composite = scheduler.join_signals();
    assert_eq!(scheduler.stage(), FrameStage::Compositing);
    assert_eq!(composite.image, 0);
    assert_eq!(composite.wait_on, vec![order(3), order(0)]);
    assert_eq!(composite.overlay_frame, None);
    assert_eq!(scheduler.gate().outstanding_count(), 0);
    assert_eq!(scheduler.gate().consumed(), 2);

    let present = scheduler.finish_composite(SubmitOutcome::Submitted);
    assert_eq!(present, Ok(PresentPlan { image: 0, wait_on: order(5) }));
    assert_eq!(scheduler.stage(), FrameStage::Composited);
    assert_eq!(scheduler.pool().get(PassKind::Scene, 0).completion(), Some(signal(4)));
    assert_eq!(scheduler.pool().get(PassKind::Scene, 0).rendered_frame(), Some(0));
    assert_eq!(scheduler.frames_in_flight(), 1);

    assert_eq!(scheduler.present(PresentOutcome::Presented), Ok(()));
    assert_eq!(scheduler.stage(), FrameStage::Idle);
    assert_eq!(scheduler.surface().frame_counter(), 1);
    assert_eq!(scheduler.surface().get_image_number(), None);
    assert_eq!(scheduler.gate().issued(), 3);
    assert_eq!(scheduler.gate().consumed(), 3);
    assert_eq!(scheduler.gate().discarded(), 0);
    assert_eq!(scheduler.gate().outstanding_count(), 0);
    assert_eq!(scheduler.gate().check_conserved(), Ok(()));
}

#[test]
fn chain_of_two_does_not_block_the_second_frame() {
    let mut scheduler = FrameScheduler::new(2, 800, 600);
    let ctx = quiet_frame();
    assert_eq!(run_frame(&mut scheduler, 0, &ctx), vec![]);
    // Image 0 is still in flight; image 1 was never used.
    assert_eq!(scheduler.frames_in_flight(), 1);
    assert_eq!(run_frame(&mut scheduler, 1, &ctx), vec![]);
    assert_eq!(scheduler.frames_in_flight(), 2);
    // The third frame comes back to image 0 and has to wait for the first:
    // scene, then picker, then shadow.
    assert_eq!(run_frame(&mut scheduler, 0, &ctx), vec![signal(4), signal(1), signal(2)]);
    assert_eq!(scheduler.frames_in_flight(), 2);
    assert_eq!(scheduler.surface().frame_counter(), 3);
}

#[test]
fn chain_of_one_blocks_the_second_frame() {
    let mut scheduler = FrameScheduler::new(1, 800, 600);
    let ctx = quiet_frame();
    assert_eq!(run_frame(&mut scheduler, 0, &ctx), vec![]);
    assert_eq!(run_frame(&mut scheduler, 0, &ctx), vec![signal(4), signal(1), signal(2)]);
    assert_eq!(scheduler.frames_in_flight(), 1);
}

#[test]
fn skipped_overlay_is_not_submitted_again() {
    let mut scheduler = FrameScheduler::new(2, 800, 600);
    let mut ctx = quiet_frame();
    ctx.overlay_changed = true;
    ctx.settings.drain_on_rerender = false;

    assert_eq!(scheduler.acquire_next(image(0)), Ok(0));
    let plan = scheduler.begin_passes(&ctx, None);
    assert!(plan.overlay);
    assert!(scheduler.overlay_active());
    assert_eq!(scheduler.pool().get(PassKind::Overlay, 0).phase(), TargetPhase::Recording);
    assert!(scheduler.join_passes(SubmitOutcome::Submitted, SubmitOutcome::Submitted, SubmitOutcome::Submitted).is_ok());
    let composite = scheduler.join_signals();
    // overlay, shadow, acquisition
    assert_eq!(composite.wait_on, vec![order(5), order(3), order(0)]);
    assert_eq!(composite.overlay_frame, Some(0));
    assert!(scheduler.finish_composite(SubmitOutcome::Submitted).is_ok());
    assert_eq!(scheduler.present(PresentOutcome::Presented), Ok(()));
    let rendered = scheduler.pool().get(PassKind::Overlay, 0);
    assert_eq!(rendered.completion(), Some(signal(4)));
    assert_eq!(rendered.rendered_frame(), Some(0));

    // Nothing changed in the next frame: the overlay target is left alone
    // and the composite reads what frame 0 rendered.
    ctx.overlay_changed = false;
    assert_eq!(scheduler.acquire_next(image(1)), Ok(1));
    let plan = scheduler.begin_passes(&ctx, None);
    assert!(!plan.overlay);
    assert_eq!(plan.waits, vec![]);
    assert_eq!(scheduler.pool().get(PassKind::Overlay, 0), rendered);
    assert!(scheduler.join_passes(SubmitOutcome::Submitted, SubmitOutcome::Submitted, SubmitOutcome::DeviceLost).is_ok());
    assert_eq!(scheduler.pool().get(PassKind::Overlay, 0), rendered);
    let composite = scheduler.join_signals();
    assert_eq!(composite.wait_on.len(), 2);
    assert_eq!(composite.overlay_frame, Some(0));
    assert!(scheduler.finish_composite(SubmitOutcome::Submitted).is_ok());
    assert_eq!(scheduler.present(PresentOutcome::Presented), Ok(()));
    assert_eq!(scheduler.pool().get(PassKind::Overlay, 0), rendered);
}

#[test]
fn forced_overlay_is_rendered_again_and_waits_for_its_signal() {
    let mut scheduler = FrameScheduler::new(2, 800, 600);
    let mut ctx = quiet_frame();
    ctx.overlay_changed = true;
    ctx.settings.drain_on_rerender = false;
    run_frame(&mut scheduler, 0, &ctx);
    ctx.overlay_changed = false;
    ctx.overlay_forced = true;
    ctx.clear_overlay = true;
    assert_eq!(scheduler.acquire_next(image(1)), Ok(1));
    let plan = scheduler.begin_passes(&ctx, None);
    assert!(plan.overlay);
    assert!(plan.clear_overlay);
    assert_eq!(plan.waits, vec![signal(4)]);
}

#[test]
fn rerender_drains_the_whole_chain() {
    let mut scheduler = FrameScheduler::new(3, 800, 600);
    let mut ctx = quiet_frame();
    run_frame(&mut scheduler, 0, &ctx);
    run_frame(&mut scheduler, 1, &ctx);
    ctx.overlay_changed = true;
    assert!(ctx.drain_chain());
    assert_eq!(scheduler.acquire_next(image(1)), Ok(1));
    let plan = scheduler.begin_passes(&ctx, None);
    // own scene target, rest of the chain, picker, shadow; the overlay was
    // never submitted
    assert_eq!(plan.waits, vec![signal(10), signal(4), signal(7), signal(8)]);
    assert_eq!(scheduler.pool().get(PassKind::Scene, 0).phase(), TargetPhase::Idle);
    assert_eq!(scheduler.pool().get(PassKind::Scene, 1).phase(), TargetPhase::Recording);
    assert_eq!(scheduler.pool().get(PassKind::Scene, 2).phase(), TargetPhase::Idle);
    // picker and shadow of the other image are left in flight
    assert_eq!(scheduler.pool().get(PassKind::Picker, 0).completion(), Some(signal(1)));
    assert_eq!(scheduler.pool().get(PassKind::Shadow, 0).completion(), Some(signal(2)));
}

#[test]
fn displayed_buffers_wait_for_the_picker_before_the_composite() {
    let mut scheduler = FrameScheduler::new(2, 800, 600);
    let mut ctx = quiet_frame();
    ctx.settings.show_picker_buffer = true;
    assert_eq!(scheduler.acquire_next(image(0)), Ok(0));
    scheduler.begin_passes(&ctx, None);
    let waits = scheduler.join_passes(SubmitOutcome::Submitted, SubmitOutcome::Submitted, SubmitOutcome::Submitted);
    assert_eq!(waits, Ok(vec![signal(1)]));
    assert_eq!(scheduler.pool().get(PassKind::Picker, 0).phase(), TargetPhase::Idle);
    assert_eq!(scheduler.pool().get(PassKind::Picker, 0).rendered_frame(), Some(0));
    assert_eq!(scheduler.pool().get(PassKind::Shadow, 0).phase(), TargetPhase::Submitted);
}

#[test]
fn acquire_timeout_changes_nothing() {
    let mut scheduler = FrameScheduler::new(2, 800, 600);
    assert_eq!(scheduler.acquire_next(AcquireOutcome::Timeout), Err(RenderError::SurfaceTimeout));
    assert_eq!(scheduler.stage(), FrameStage::Idle);
    assert!(!scheduler.needs_recreate());
    assert_eq!(scheduler.gate().next_id(), 0);
    assert_eq!(scheduler.surface().frame_counter(), 0);
    assert_eq!(scheduler.acquire_next(image(0)), Ok(0));
}

#[test]
fn acquire_out_of_date_asks_for_a_rebuild() {
    let mut scheduler = FrameScheduler::new(2, 800, 600);
    assert_eq!(scheduler.acquire_next(AcquireOutcome::OutOfDate), Err(RenderError::SurfaceOutOfDate));
    assert_eq!(scheduler.stage(), FrameStage::Idle);
    assert!(scheduler.needs_recreate());
    // Until the chain is rebuilt no image is accepted.
    assert_eq!(scheduler.acquire_next(image(0)), Err(RenderError::SurfaceOutOfDate));
    assert_eq!(scheduler.gate().issued(), 0);
}

#[test]
fn acquire_rejects_an_image_outside_the_chain() {
    let mut scheduler = FrameScheduler::new(2, 800, 600);
    assert_eq!(scheduler.acquire_next(image(2)), Err(RenderError::SurfaceOutOfDate));
    assert!(scheduler.needs_recreate());
    assert_eq!(scheduler.surface().get_image_number(), None);
}

#[test]
fn acquire_lost_halts_the_run() {
    let mut scheduler = FrameScheduler::new(2, 800, 600);
    assert_eq!(scheduler.acquire_next(AcquireOutcome::Lost), Err(RenderError::SurfaceLost));
    assert_eq!(scheduler.stage(), FrameStage::Halted);
    assert!(!scheduler.can_recreate());
}

#[test]
fn suboptimal_image_is_drawn_and_rebuilt_afterwards() {
    let mut scheduler = FrameScheduler::new(2, 800, 600);
    assert_eq!(scheduler.acquire_next(AcquireOutcome::Image { index: 1, suboptimal: true }), Ok(1));
    assert_eq!(scheduler.stage(), FrameStage::Acquired);
    assert!(scheduler.needs_recreate());
}

#[test]
fn present_out_of_date_completes_the_frame_and_asks_for_a_rebuild() {
    let mut scheduler = FrameScheduler::new(2, 800, 600);
    let ctx = quiet_frame();
    assert_eq!(scheduler.acquire_next(image(0)), Ok(0));
    scheduler.begin_passes(&ctx, None);
    assert!(scheduler.join_passes(SubmitOutcome::Submitted, SubmitOutcome::Submitted, SubmitOutcome::Submitted).is_ok());
    scheduler.join_signals();
    assert!(scheduler.finish_composite(SubmitOutcome::Submitted).is_ok());
    assert_eq!(scheduler.present(PresentOutcome::OutOfDate), Ok(()));
    assert_eq!(scheduler.stage(), FrameStage::Idle);
    assert!(scheduler.needs_recreate());
    assert_eq!(scheduler.surface().frame_counter(), 1);
    assert_eq!(scheduler.gate().outstanding_count(), 0);
}

#[test]
fn present_lost_halts_the_run() {
    let mut scheduler = FrameScheduler::new(2, 800, 600);
    let ctx = quiet_frame();
    assert_eq!(scheduler.acquire_next(image(0)), Ok(0));
    scheduler.begin_passes(&ctx, None);
    assert!(scheduler.join_passes(SubmitOutcome::Submitted, SubmitOutcome::Submitted, SubmitOutcome::Submitted).is_ok());
    scheduler.join_signals();
    assert!(scheduler.finish_composite(SubmitOutcome::Submitted).is_ok());
    assert_eq!(scheduler.present(PresentOutcome::Lost), Err(RenderError::SurfaceLost));
    assert_eq!(scheduler.stage(), FrameStage::Halted);
    assert_eq!(scheduler.shutdown(), vec![signal(4), signal(1), signal(2)]);
}

#[test]
fn lost_device_in_the_fan_out_aborts_the_frame() {
    let mut scheduler = FrameScheduler::new(2, 800, 600);
    let mut ctx = quiet_frame();
    ctx.overlay_changed = true;
    assert_eq!(scheduler.acquire_next(image(0)), Ok(0));
    scheduler.begin_passes(&ctx, None);
    let joined = scheduler.join_passes(SubmitOutcome::Submitted, SubmitOutcome::DeviceLost, SubmitOutcome::Aborted);
    assert_eq!(joined, Err(RenderError::DeviceLost));
    assert_eq!(scheduler.stage(), FrameStage::Halted);
    // The picker was submitted and runs to completion; the rest was dropped.
    assert_eq!(scheduler.pool().get(PassKind::Picker, 0).completion(), Some(signal(1)));
    assert_eq!(scheduler.pool().get(PassKind::Shadow, 0).phase(), TargetPhase::Idle);
    assert_eq!(scheduler.pool().get(PassKind::Overlay, 0).phase(), TargetPhase::Idle);
    assert_eq!(scheduler.pool().get(PassKind::Scene, 0).phase(), TargetPhase::Idle);
    assert_eq!(scheduler.pool().get(PassKind::Shadow, 0).rendered_frame(), None);
    // The acquisition's ordering signal found no waiter.
    assert_eq!(scheduler.gate().outstanding_count(), 0);
    assert_eq!(scheduler.gate().issued(), 1);
    assert_eq!(scheduler.gate().discarded(), 1);
    assert_eq!(scheduler.gate().consumed(), 0);
    assert_eq!(scheduler.surface().acquire_signal(), None);
    // What was submitted is waited for before the resources go.
    assert_eq!(scheduler.shutdown(), vec![signal(1)]);
    assert_eq!(scheduler.frames_in_flight(), 0);
}

#[test]
fn lost_device_on_the_overlay_discards_the_shadow_signal() {
    let mut scheduler = FrameScheduler::new(1, 640, 480);
    let mut ctx = quiet_frame();
    ctx.overlay_forced = true;
    assert_eq!(scheduler.acquire_next(image(0)), Ok(0));
    scheduler.begin_passes(&ctx, None);
    let joined = scheduler.join_passes(SubmitOutcome::Submitted, SubmitOutcome::Submitted, SubmitOutcome::DeviceLost);
    assert_eq!(joined, Err(RenderError::DeviceLost));
    assert_eq!(scheduler.pool().get(PassKind::Shadow, 0).completion(), Some(signal(2)));
    assert_eq!(scheduler.gate().issued(), 2);
    assert_eq!(scheduler.gate().discarded(), 2);
    assert_eq!(scheduler.shutdown(), vec![signal(1), signal(2)]);
}

#[test]
fn lost_device_in_the_composite_halts_the_run() {
    let mut scheduler = FrameScheduler::new(2, 800, 600);
    let ctx = quiet_frame();
    assert_eq!(scheduler.acquire_next(image(1)), Ok(1));
    scheduler.begin_passes(&ctx, None);
    assert!(scheduler.join_passes(SubmitOutcome::Submitted, SubmitOutcome::Submitted, SubmitOutcome::Submitted).is_ok());
    scheduler.join_signals();
    assert_eq!(scheduler.finish_composite(SubmitOutcome::DeviceLost), Err(RenderError::DeviceLost));
    assert_eq!(scheduler.stage(), FrameStage::Halted);
    assert_eq!(scheduler.pool().get(PassKind::Scene, 1).phase(), TargetPhase::Idle);
    assert_eq!(scheduler.pool().get(PassKind::Scene, 1).rendered_frame(), None);
    assert_eq!(scheduler.gate().next_id(), 4);
    assert_eq!(scheduler.shutdown(), vec![signal(1), signal(2)]);
}

#[test]
fn recreate_drains_every_target_of_the_old_generation() {
    let mut scheduler = FrameScheduler::new(2, 800, 600);
    let mut ctx = quiet_frame();
    ctx.overlay_changed = true;
    ctx.settings.drain_on_rerender = false;
    run_frame(&mut scheduler, 0, &ctx);
    ctx.overlay_changed = false;
    run_frame(&mut scheduler, 1, &ctx);
    scheduler.resize(1024, 768);
    assert!(scheduler.needs_recreate());
    assert!(scheduler.can_recreate());
    let drained = scheduler.recreate(1024, 768, 3);
    // scene row, picker row, shadow row, overlay
    assert_eq!(drained, vec![signal(6), signal(12), signal(1), signal(9), signal(2), signal(10), signal(4)]);
    assert!(!scheduler.needs_recreate());
    assert_eq!(scheduler.stage(), FrameStage::Idle);
    assert_eq!(scheduler.surface().generation(), 1);
    assert_eq!(scheduler.surface().image_count(), 3);
    assert_eq!(scheduler.surface().window_size(), (1024, 768));
    assert_eq!(scheduler.surface().frame_counter(), 2);
    assert_eq!(scheduler.pool().image_count(), 3);
    assert_eq!(scheduler.frames_in_flight(), 0);
    for kind in [PassKind::Scene, PassKind::Picker, PassKind::Shadow, PassKind::Overlay] {
        for index in 0..3 {
            let target = scheduler.pool().get(kind, index);
            assert_eq!(target.kind(), kind);
            assert_eq!(target.generation(), 1);
            assert_eq!((target.width(), target.height()), (1024, 768));
            assert_eq!(target.phase(), TargetPhase::Idle);
            assert_eq!(target.completion(), None);
            assert_eq!(target.rendered_frame(), None);
        }
    }
    assert_eq!(scheduler.gate().outstanding_count(), 0);
    // A second rebuild finds nothing to drain.
    assert_eq!(scheduler.recreate(1024, 768, 3), vec![]);
}

#[test]
fn surface_out_of_date_mid_run_is_recovered_by_a_rebuild() {
    let mut scheduler = FrameScheduler::new(2, 800, 600);
    let ctx = quiet_frame();
    run_frame(&mut scheduler, 0, &ctx);
    assert_eq!(scheduler.acquire_next(AcquireOutcome::OutOfDate), Err(RenderError::SurfaceOutOfDate));
    assert!(RenderError::SurfaceOutOfDate.requires_recreate());
    assert!(scheduler.needs_recreate());
    let drained = scheduler.recreate(1280, 720, 2);
    assert_eq!(drained, vec![signal(4), signal(1), signal(2)]);
    // The next frame proceeds as a first frame does.
    assert_eq!(run_frame(&mut scheduler, 0, &ctx), vec![]);
    assert_eq!(scheduler.pool().get(PassKind::Scene, 0).generation(), 1);
    assert_eq!(scheduler.pool().get(PassKind::Scene, 0).rendered_frame(), Some(1));
    assert_eq!(scheduler.gate().outstanding_count(), 0);
    assert_eq!(scheduler.gate().discarded(), 0);
    assert_eq!(scheduler.gate().issued(), scheduler.gate().consumed());
}

#[test]
fn resize_and_frame_limit_mark_the_chain_only() {
    let mut scheduler = FrameScheduler::new(2, 800, 600);
    scheduler.resize(300, 200);
    assert!(scheduler.needs_recreate());
    assert_eq!(scheduler.surface().window_size(), (300, 200));
    assert_eq!(scheduler.pool().get(PassKind::Scene, 0).width(), 800);
    scheduler.recreate(300, 200, 2);
    assert!(!scheduler.needs_recreate());
    scheduler.set_frame_limit(false);
    assert!(scheduler.needs_recreate());
    assert!(!scheduler.surface().frame_limit());
    scheduler.recreate(300, 200, 2);
    scheduler.invalidate();
    assert!(scheduler.needs_recreate());
    assert_eq!(scheduler.surface().generation(), 2);
}

#[test]
fn upload_is_waited_for_only_by_a_frame_that_reads_it() {
    let mut scheduler = FrameScheduler::new(2, 800, 600);
    let mut ctx = quiet_frame();
    assert_eq!(scheduler.acquire_next(image(0)), Ok(0));
    let plan = scheduler.begin_passes(&ctx, Some(UploadSignal { id: 70 }));
    assert_eq!(plan.upload_waits, vec![]);
    assert!(scheduler.join_passes(SubmitOutcome::Submitted, SubmitOutcome::Submitted, SubmitOutcome::Submitted).is_ok());
    scheduler.join_signals();
    assert!(scheduler.finish_composite(SubmitOutcome::Submitted).is_ok());
    assert_eq!(scheduler.present(PresentOutcome::Presented), Ok(()));

    ctx.uses_uploads = true;
    assert_eq!(scheduler.acquire_next(image(1)), Ok(1));
    let plan = scheduler.begin_passes(&ctx, Some(UploadSignal { id: 71 }));
    assert_eq!(plan.upload_waits, vec![UploadSignal { id: 70 }, UploadSignal { id: 71 }]);
    assert!(scheduler.join_passes(SubmitOutcome::Submitted, SubmitOutcome::Submitted, SubmitOutcome::Submitted).is_ok());
    scheduler.join_signals();
    assert!(scheduler.finish_composite(SubmitOutcome::Submitted).is_ok());
    assert_eq!(scheduler.present(PresentOutcome::Presented), Ok(()));

    assert_eq!(scheduler.acquire_next(image(0)), Ok(0));
    let plan = scheduler.begin_passes(&ctx, None);
    assert_eq!(plan.upload_waits, vec![]);
}

#[test]
fn shutdown_mid_frame_drops_open_recordings() {
    let mut scheduler = FrameScheduler::new(2, 800, 600);
    let ctx = quiet_frame();
    run_frame(&mut scheduler, 0, &ctx);
    assert_eq!(scheduler.acquire_next(image(1)), Ok(1));
    scheduler.begin_passes(&ctx, None);
    let drained = scheduler.shutdown();
    assert_eq!(drained, vec![signal(4), signal(1), signal(2)]);
    assert_eq!(scheduler.stage(), FrameStage::Halted);
    assert_eq!(scheduler.pool().get(PassKind::Scene, 1).phase(), TargetPhase::Idle);
    assert_eq!(scheduler.gate().outstanding_count(), 0);
    assert_eq!(scheduler.gate().discarded(), 1);
    assert_eq!(scheduler.shutdown(), vec![]);
}

#[test]
fn many_frames_keep_the_books_balanced() {
    let mut scheduler = FrameScheduler::new(3, 800, 600);
    let mut ctx = quiet_frame();
    for frame in 0..30usize {
        ctx.overlay_changed = frame % 4 == 0;
        ctx.settings.show_depth_buffer = frame % 7 == 0;
        let waits = run_frame(&mut scheduler, frame % 3, &ctx);
        // A frame never waits on a signal twice.
        for (at, wait) in waits.iter().enumerate() {
            assert!(!waits[..at].contains(wait));
        }
        assert_eq!(scheduler.gate().outstanding_count(), 0);
        assert_eq!(scheduler.gate().issued(), scheduler.gate().consumed());
        assert_eq!(scheduler.gate().discarded(), 0);
        assert!(scheduler.frames_in_flight() <= 3);
        assert_eq!(scheduler.surface().frame_counter(), frame as u64 + 1);
    }
}

#[test]
fn overlay_is_stale_until_it_is_rendered_and_after_a_rebuild() {
    let mut scheduler = FrameScheduler::new(2, 800, 600);
    let mut ctx = quiet_frame();
    assert!(scheduler.overlay_is_stale());
    run_frame(&mut scheduler, 0, &ctx);
    assert!(scheduler.overlay_is_stale());
    ctx.overlay_forced = scheduler.overlay_is_stale();
    run_frame(&mut scheduler, 1, &ctx);
    assert!(!scheduler.overlay_is_stale());
    scheduler.invalidate();
    scheduler.recreate(800, 600, 2);
    assert!(scheduler.overlay_is_stale());
}

#[test]
fn signals_of_the_frame_are_visible_between_the_steps() {
    let mut scheduler = FrameScheduler::new(2, 800, 600);
    let mut ctx = quiet_frame();
    ctx.overlay_changed = true;
    ctx.settings.show_normal_buffer = true;
    assert_eq!(scheduler.acquire_next(image(0)), Ok(0));
    scheduler.begin_passes(&ctx, None);
    assert!(scheduler.buffers_shown());
    assert_eq!((scheduler.shadow_signal(), scheduler.overlay_signal()), (None, None));
    assert!(scheduler.join_passes(SubmitOutcome::Submitted, SubmitOutcome::Submitted, SubmitOutcome::Submitted).is_ok());
    assert_eq!(scheduler.shadow_signal(), Some(order(3)));
    assert_eq!(scheduler.overlay_signal(), Some(order(5)));
    assert_eq!(scheduler.composite_signal(), None);
    scheduler.join_signals();
    assert_eq!((scheduler.shadow_signal(), scheduler.overlay_signal()), (None, None));
    assert_eq!(scheduler.surface().acquire_signal(), None);
    assert!(scheduler.finish_composite(SubmitOutcome::Submitted).is_ok());
    assert_eq!(scheduler.composite_signal(), Some(order(7)));
    assert_eq!(scheduler.present(PresentOutcome::Presented), Ok(()));
    assert_eq!(scheduler.composite_signal(), None);
}

#[test]
fn next_step_follows_the_stage() {
    let mut scheduler = FrameScheduler::new(2, 800, 600);
    let ctx = quiet_frame();
    assert_eq!(scheduler.next_step(), NextStep::Acquire);
    scheduler.invalidate();
    assert_eq!(scheduler.next_step(), NextStep::Recreate);
    scheduler.recreate(800, 600, 2);
    assert_eq!(scheduler.next_step(), NextStep::Acquire);
    assert_eq!(scheduler.acquire_next(image(0)), Ok(0));
    assert_eq!(scheduler.next_step(), NextStep::BeginPasses);
    // A resize in the middle of a frame is taken up once the frame is over.
    scheduler.resize(640, 480);
    assert_eq!(scheduler.next_step(), NextStep::BeginPasses);
    assert!(!scheduler.can_recreate());
    scheduler.begin_passes(&ctx, None);
    assert_eq!(scheduler.next_step(), NextStep::JoinPasses);
    assert!(scheduler.join_passes(SubmitOutcome::Submitted, SubmitOutcome::Submitted, SubmitOutcome::Submitted).is_ok());
    assert_eq!(scheduler.next_step(), NextStep::JoinSignals);
    scheduler.join_signals();
    assert_eq!(scheduler.next_step(), NextStep::FinishComposite);
    assert!(scheduler.finish_composite(SubmitOutcome::Submitted).is_ok());
    assert_eq!(scheduler.next_step(), NextStep::Present);
    assert_eq!(scheduler.present(PresentOutcome::Presented), Ok(()));
    assert_eq!(scheduler.next_step(), NextStep::Recreate);
    scheduler.recreate(640, 480, 2);
    assert_eq!(scheduler.next_step(), NextStep::Acquire);
    scheduler.shutdown();
    assert_eq!(scheduler.next_step(), NextStep::Shutdown);
}
