use vstd::prelude::*;
use crate::controls::Controls;

verus! {

/// Jets of the start-up splats that a reset queues.
pub const STARTUP_JETS: usize = 3;

/// Times each start-up jet is splatted, so the jets gain enough momentum to
/// curl.
pub const STARTUP_REPEATS: usize = 15;

/// What one frame does before it records its display pass.
#[derive(Clone, Copy, Debug, PartialEq, Eq, Structural)]
pub struct FramePlan {
    /// Clear the fields and queue the start-up splats.
    pub reset: bool,
    /// Simulated time advances this frame (the frame's time step is
    /// positive); otherwise it is zero.
    pub advance_time: bool,
    /// Record a solver time step.
    pub stepping: bool,
}

/// The plan of a frame that starts with controls `c`, where `clock_advanced`
/// tells whether the real time since the last frame, scaled by the time
/// speed, is positive, and `pending_splats` splats wait.
pub open spec fn frame_plan(c: Controls, clock_advanced: bool, pending_splats: nat) -> FramePlan {
    let advance_time = !c.paused && clock_advanced;
    FramePlan {
        reset: c.reset_requested,
        advance_time,
        stepping: advance_time || pending_splats > 0 || c.reset_requested,
    }
}

impl Controls {
    /// Starts a frame: a requested reset is taken (and no longer pending),
    /// time advances unless paused, and the solver steps when time advances
    /// or splats wait (a reset queues the start-up splats).
    pub fn begin_frame(&mut self, clock_advanced: bool, pending_splats: usize) -> (plan: FramePlan)
        ensures
            plan == frame_plan(*old(self), clock_advanced, pending_splats as nat),
            *final(self) == (Controls { reset_requested: false, ..*old(self) }),
    {
        let reset = self.reset_requested;
        self.reset_requested = false;
        let advance_time = !self.paused && clock_advanced;
        FramePlan { reset, advance_time, stepping: advance_time || pending_splats > 0 || reset }
    }
}

/// A requested reset is carried out by the next frame, which also steps
/// (to apply the start-up splats), and by no frame after it unless
/// requested again.
pub proof fn lemma_reset_runs_once(c: Controls, clock1: bool, pending1: nat, clock2: bool, pending2: nat)
    requires
        c.reset_requested,
    ensures
        frame_plan(c, clock1, pending1).reset,
        frame_plan(c, clock1, pending1).stepping,
        !frame_plan(Controls { reset_requested: false, ..c }, clock2, pending2).reset,
{
}

/// While paused, simulated time stands still; the solver steps only for
/// waiting splats or a reset.
pub proof fn lemma_paused_time_stands_still(c: Controls, clock: bool, pending: nat)
    requires
        c.paused,
    ensures
        !frame_plan(c, clock, pending).advance_time,
        frame_plan(c, clock, pending).stepping == (pending > 0 || c.reset_requested),
{
}

/// Outcome of acquiring the next swapchain image.
#[derive(Clone, Copy, Debug, PartialEq, Eq, Structural)]
pub enum AcquireOutcome {
    Acquired { suboptimal: bool },
    OutOfDate,
    Failed,
}

/// What the frame does after acquiring an image.
#[derive(Clone, Copy, Debug, PartialEq, Eq, Structural)]
pub enum AcquireAction {
    /// Record and present the frame.
    Draw,
    /// Give up this frame and start the next one from a fresh future.
    SkipFrame,
    /// Acquiring failed for a reason other than an out-of-date swapchain.
    Abort,
}

/// Outcome of submitting and presenting a frame.
#[derive(Clone, Copy, Debug, PartialEq, Eq, Structural)]
pub enum PresentOutcome {
    Presented,
    OutOfDate,
    Failed,
}

/// What the frame does with the future of its submission.
#[derive(Clone, Copy, Debug, PartialEq, Eq, Structural)]
pub enum PresentAction {
    /// Keep the submission's future as the previous frame's end.
    KeepFuture,
    /// Start the next frame from a fresh future.
    Resync,
    /// Report the failure, then start the next frame from a fresh future.
    ReportAndResync,
}

/// Whether the swapchain must be recreated before the next draw.
#[derive(Clone, Copy, Debug, PartialEq, Eq, Structural)]
pub struct SwapchainStatus {
    pub recreate: bool,
}

pub open spec fn acquire_spec(s: SwapchainStatus, o: AcquireOutcome) -> (SwapchainStatus, AcquireAction) {
    match o {
        AcquireOutcome::Acquired { suboptimal } => (
            SwapchainStatus { recreate: s.recreate || suboptimal },
            AcquireAction::Draw,
        ),
        AcquireOutcome::OutOfDate => (SwapchainStatus { recreate: true }, AcquireAction::SkipFrame),
        AcquireOutcome::Failed => (s, AcquireAction::Abort),
    }
}

pub open spec fn present_spec(s: SwapchainStatus, o: PresentOutcome) -> (SwapchainStatus, PresentAction) {
    match o {
        PresentOutcome::Presented => (s, PresentAction::KeepFuture),
        PresentOutcome::OutOfDate => (SwapchainStatus { recreate: true }, PresentAction::Resync),
        PresentOutcome::Failed => (s, PresentAction::ReportAndResync),
    }
}

impl SwapchainStatus {
    /// A freshly created swapchain.
    pub fn new() -> (s: Self)
        ensures
            !s.recreate,
    {
        SwapchainStatus { recreate: false }
    }

    /// The window was resized: the swapchain no longer fits.
    pub fn on_resize(&mut self)
        ensures
            final(self).recreate,
    {
        self.recreate = true;
    }

    /// Whether the swapchain is to be recreated now; afterwards it is
    /// current.
    pub fn take_refresh(&mut self) -> (r: bool)
        ensures
            r == old(self).recreate,
            !final(self).recreate,
    {
        let r = self.recreate;
        self.recreate = false;
        r
    }

    /// Handles the outcome of acquiring an image.
    pub fn after_acquire(&mut self, o: AcquireOutcome) -> (a: AcquireAction)
        ensures
            (*final(self), a) == acquire_spec(*old(self), o),
    {
        match o {
            AcquireOutcome::Acquired { suboptimal } => {
                if suboptimal {
                    self.recreate = true;
                }
                AcquireAction::Draw
            },
            AcquireOutcome::OutOfDate => {
                self.recreate = true;
                AcquireAction::SkipFrame
            },
            AcquireOutcome::Failed => AcquireAction::Abort,
        }
    }

    /// Handles the outcome of presenting a frame.
    pub fn after_present(&mut self, o: PresentOutcome) -> (a: PresentAction)
        ensures
            (*final(self), a) == present_spec(*old(self), o),
    {
        match o {
            PresentOutcome::Presented => PresentAction::KeepFuture,
            PresentOutcome::OutOfDate => {
                self.recreate = true;
                PresentAction::Resync
            },
            PresentOutcome::Failed => PresentAction::ReportAndResync,
        }
    }
}

/// A swapchain reported out of date or suboptimal, whether when acquiring or
/// when presenting, is recreated before the next frame draws.
pub proof fn lemma_stale_swapchain_is_recreated(s: SwapchainStatus, a: AcquireOutcome, p: PresentOutcome)
    ensures
        a == AcquireOutcome::OutOfDate || a == (AcquireOutcome::Acquired { suboptimal: true })
            ==> acquire_spec(s, a).0.recreate,
        p == PresentOutcome::OutOfDate ==> present_spec(s, p).0.recreate,
{
}

/// The stale-swapchain flag is raised by an out-of-date or suboptimal
/// outcome and cleared by no acquire or present outcome (only taking the
/// refresh clears it): a clean acquire, a failed acquire, a successful or a
/// failed present leave the status as it was, so a flag raised at acquire is
/// still set after presenting. The frame draws exactly when an image was
/// acquired and keeps its future exactly when it was presented.
pub proof fn lemma_only_refresh_clears_stale_flag(
    s: SwapchainStatus,
    a: AcquireOutcome,
    p: PresentOutcome,
)
    ensures
        s.recreate ==> acquire_spec(s, a).0.recreate,
        s.recreate ==> present_spec(s, p).0.recreate,
        acquire_spec(s, AcquireOutcome::Acquired { suboptimal: false }).0 == s,
        acquire_spec(s, AcquireOutcome::Failed).0 == s,
        present_spec(s, PresentOutcome::Presented).0 == s,
        present_spec(s, PresentOutcome::Failed).0 == s,
        present_spec(acquire_spec(s, AcquireOutcome::Acquired { suboptimal: true }).0, p).0.recreate,
        (acquire_spec(s, a).1 == AcquireAction::Draw) <==> (a is Acquired),
        (acquire_spec(s, a).1 == AcquireAction::Abort) <==> (a == AcquireOutcome::Failed),
        (present_spec(s, p).1 == PresentAction::KeepFuture) <==> (p == PresentOutcome::Presented),
        (present_spec(s, p).1 == PresentAction::ReportAndResync) <==> (p == PresentOutcome::Failed),
{
}

/// A frame steps the solver whenever anything is to be simulated: when
/// running with the clock advanced (then time advances too), when splats
/// wait, or when a reset is taken; a frame that does not step advances no
/// time, has no waiting splats and takes no reset.
pub proof fn lemma_frame_steps_when_needed(c: Controls, clock_advanced: bool, pending: nat)
    ensures
        !c.paused && clock_advanced ==> frame_plan(c, clock_advanced, pending).advance_time
            && frame_plan(c, clock_advanced, pending).stepping,
        frame_plan(c, clock_advanced, pending).advance_time ==> !c.paused && clock_advanced,
        pending > 0 ==> frame_plan(c, clock_advanced, pending).stepping,
        !frame_plan(c, clock_advanced, pending).stepping ==> !frame_plan(
            c,
            clock_advanced,
            pending,
        ).advance_time && pending == 0 && !c.reset_requested,
        frame_plan(c, clock_advanced, pending).reset == c.reset_requested,
{
}

} // verus!
