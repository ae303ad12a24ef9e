use vstd::prelude::*;

verus! {

/// The steps of one frame on the render thread.
#[derive(Clone, Copy, PartialEq, Eq, Structural, Debug)]
pub enum FramePhase {
    Idle,
    /// Apply every queued command, oldest first.
    DrainCommands,
    /// Recompute GPU-visible state derived from the tables, once per frame.
    UpdateDerived,
    /// Issue one draw call per drawable object.
    Draw,
    /// Hand the frame to the display.
    Present,
    /// Wait out what is left of the frame budget.
    Pace,
}

/// The phase that follows `p`; after pacing the driver is idle again.
pub open spec fn next_phase(p: FramePhase) -> FramePhase {
    match p {
        FramePhase::Idle => FramePhase::DrainCommands,
        FramePhase::DrainCommands => FramePhase::UpdateDerived,
        FramePhase::UpdateDerived => FramePhase::Draw,
        FramePhase::Draw => FramePhase::Present,
        FramePhase::Present => FramePhase::Pace,
        FramePhase::Pace => FramePhase::Idle,
    }
}

impl FramePhase {
    /// The phase that follows this one.
    pub fn next(self) -> (r: FramePhase)
        ensures
            r == next_phase(self),
    {
        match self {
            FramePhase::Idle => FramePhase::DrainCommands,
            FramePhase::DrainCommands => FramePhase::UpdateDerived,
            FramePhase::UpdateDerived => FramePhase::Draw,
            FramePhase::Draw => FramePhase::Present,
            FramePhase::Present => FramePhase::Pace,
            FramePhase::Pace => FramePhase::Idle,
        }
    }
}

pub const NANOS_PER_SECOND: u128 = 1_000_000_000;

/// The time budget of one frame at `fps` frames per second, in nanoseconds.
pub fn frame_budget_nanos(fps: u32) -> (r: u128)
    requires
        fps > 0,
    ensures
        r == NANOS_PER_SECOND / (fps as u128),
{
    NANOS_PER_SECOND / (fps as u128)
}

/// How long to wait after a frame that took `elapsed_nanos`, so that frames come no
/// faster than `fps` a second: the rest of the budget, or nothing for a frame that
/// ran over it.
pub fn remaining_frame_time(elapsed_nanos: u128, fps: u32) -> (r: Option<u64>)
    requires
        fps > 0,
    ensures
        elapsed_nanos < NANOS_PER_SECOND / (fps as u128) ==> r == Some(
            (NANOS_PER_SECOND / (fps as u128) - elapsed_nanos) as u64,
        ),
        elapsed_nanos >= NANOS_PER_SECOND / (fps as u128) ==> r is None,
{
    let budget = frame_budget_nanos(fps);
    if elapsed_nanos < budget {
        assert(budget <= NANOS_PER_SECOND) by (nonlinear_arith)
            requires
                budget == NANOS_PER_SECOND / (fps as u128),
                fps > 0,
        ;
        Some((budget - elapsed_nanos) as u64)
    } else {
        None
    }
}

} // verus!
