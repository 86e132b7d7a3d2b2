use navier_stokes_vulkan::controls::Controls;
use navier_stokes_vulkan::frame::{
    AcquireAction, AcquireOutcome, FramePlan, PresentAction, PresentOutcome, SwapchainStatus,
    STARTUP_JETS, STARTUP_REPEATS,
};

#[test]
fn first_frame_resets_and_steps() {
    let mut c = Controls::new();
    let plan = c.begin_frame(true, 0);
    assert_eq!(plan, FramePlan { reset: true, advance_time: true, stepping: true });
    assert!(!c.reset_requested);
    let plan = c.begin_frame(true, 0);
    assert_eq!(plan, FramePlan { reset: false, advance_time: true, stepping: true });
}

#[test]
fn reset_frame_steps_even_without_time() {
    let mut c = Controls { paused: true, pressure_iters: 44, reset_requested: true };
    let plan = c.begin_frame(false, 0);
    assert_eq!(plan, FramePlan { reset: true, advance_time: false, stepping: true });
}

#[test]
fn paused_frames() {
    let mut c = Controls { paused: true, pressure_iters: 44, reset_requested: false };
    assert_eq!(
        c.begin_frame(true, 0),
        FramePlan { reset: false, advance_time: false, stepping: false }
    );
    assert_eq!(
        c.begin_frame(true, 2),
        FramePlan { reset: false, advance_time: false, stepping: true }
    );
}

#[test]
fn idle_clock_without_splats_does_not_step() {
    let mut c = Controls { paused: false, pressure_iters: 44, reset_requested: false };
    assert_eq!(
        c.begin_frame(false, 0),
        FramePlan { reset: false, advance_time: false, stepping: false }
    );
}

#[test]
fn startup_jets() {
    assert_eq!(STARTUP_JETS * STARTUP_REPEATS, 45);
}

#[test]
fn acquire_outcomes() {
    let mut s = SwapchainStatus::new();
    assert_eq!(s.after_acquire(AcquireOutcome::Acquired { suboptimal: false }), AcquireAction::Draw);
    assert!(!s.recreate);
    assert_eq!(s.after_acquire(AcquireOutcome::Acquired { suboptimal: true }), AcquireAction::Draw);
    assert!(s.recreate);
    assert!(s.take_refresh());
    assert!(!s.take_refresh());
    assert_eq!(s.after_acquire(AcquireOutcome::OutOfDate), AcquireAction::SkipFrame);
    assert!(s.recreate);
    let mut t = SwapchainStatus::new();
    assert_eq!(t.after_acquire(AcquireOutcome::Failed), AcquireAction::Abort);
    assert!(!t.recreate);
}

#[test]
fn present_outcomes() {
    let mut s = SwapchainStatus::new();
    assert_eq!(s.after_present(PresentOutcome::Presented), PresentAction::KeepFuture);
    assert!(!s.recreate);
    assert_eq!(s.after_present(PresentOutcome::Failed), PresentAction::ReportAndResync);
    assert!(!s.recreate);
    assert_eq!(s.after_present(PresentOutcome::OutOfDate), PresentAction::Resync);
    assert!(s.recreate);
}

#[test]
fn resize_requests_recreation() {
    let mut s = SwapchainStatus::new();
    s.on_resize();
    assert!(s.recreate);
    assert!(s.take_refresh());
    assert!(!s.recreate);
}
