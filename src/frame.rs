use vstd::prelude::*;

use crate::surface::{config_for, needs_reconfigure, Size, SurfaceConfig, SurfaceError};

verus! {

/// Where the context stands in drawing a frame.
#[derive(Clone, Copy, Debug, PartialEq, Eq, Structural)]
pub enum FramePhase {
    /// No frame under way.
    Idle,
    /// Waiting for a surface image; `retried` once the surface was reconfigured.
    Acquiring { retried: bool },
    /// Waiting for the surface to be reconfigured.
    Reconfiguring,
    /// An image was acquired; waiting for the recorded pass to be presented.
    Recording,
}

/// What the backend reports back to the frame driver.
#[derive(Clone, Copy, Debug, PartialEq, Eq, Structural)]
pub enum FrameEvent {
    /// A redraw is due.
    Tick,
    /// A surface image was acquired.
    Acquired,
    /// No surface image could be acquired.
    AcquireFailed(SurfaceError),
    /// The surface was configured as asked.
    Reconfigured,
    /// The recorded pass was submitted and the image presented.
    Presented,
}

/// What the frame driver asks the backend to do next.
#[derive(Clone, Copy, Debug, PartialEq, Eq, Structural)]
pub enum FrameAction {
    /// Acquire the next surface image.
    Acquire,
    /// Configure the surface anew, then report `Reconfigured`.
    Reconfigure(SurfaceConfig),
    /// Record the frame's pass, submit it, present the image, then report `Presented`.
    Record,
    /// Give up this frame; the next tick starts a new one.
    Skip(SurfaceError),
    /// The frame was presented.
    Done,
    /// The event does not belong to the current phase; nothing to do.
    Wait,
}

/// One step of the frame driver. An image that cannot be acquired because
/// the surface is outdated or lost is retried once after reconfiguring the
/// surface with the last known size; any other failure, or a second one,
/// skips the frame.
pub open spec fn transition(phase: FramePhase, event: FrameEvent, size: Size) -> (FramePhase, FrameAction) {
    match phase {
        FramePhase::Idle => match event {
            FrameEvent::Tick => (FramePhase::Acquiring { retried: false }, FrameAction::Acquire),
            _ => (phase, FrameAction::Wait),
        },
        FramePhase::Acquiring { retried } => match event {
            FrameEvent::Acquired => (FramePhase::Recording, FrameAction::Record),
            FrameEvent::AcquireFailed(e) => if !retried && needs_reconfigure(e) {
                (FramePhase::Reconfiguring, FrameAction::Reconfigure(config_for(size)))
            } else {
                (FramePhase::Idle, FrameAction::Skip(e))
            },
            _ => (phase, FrameAction::Wait),
        },
        FramePhase::Reconfiguring => match event {
            FrameEvent::Reconfigured => (FramePhase::Acquiring { retried: true }, FrameAction::Acquire),
            _ => (phase, FrameAction::Wait),
        },
        FramePhase::Recording => match event {
            FrameEvent::Presented => (FramePhase::Idle, FrameAction::Done),
            _ => (phase, FrameAction::Wait),
        },
    }
}

/// Takes one step of the frame driver, with `size` as the last known drawable size.
pub fn frame_step(phase: FramePhase, event: FrameEvent, size: Size) -> (r: (FramePhase, FrameAction))
    ensures
        r == transition(phase, event, size),
{
    match phase {
        FramePhase::Idle => match event {
            FrameEvent::Tick => (FramePhase::Acquiring { retried: false }, FrameAction::Acquire),
            _ => (phase, FrameAction::Wait),
        },
        FramePhase::Acquiring { retried } => match event {
            FrameEvent::Acquired => (FramePhase::Recording, FrameAction::Record),
            FrameEvent::AcquireFailed(e) => if !retried && e.needs_reconfigure() {
                (FramePhase::Reconfiguring, FrameAction::Reconfigure(SurfaceConfig::for_size(size)))
            } else {
                (FramePhase::Idle, FrameAction::Skip(e))
            },
            _ => (phase, FrameAction::Wait),
        },
        FramePhase::Reconfiguring => match event {
            FrameEvent::Reconfigured => (FramePhase::Acquiring { retried: true }, FrameAction::Acquire),
            _ => (phase, FrameAction::Wait),
        },
        FramePhase::Recording => match event {
            FrameEvent::Presented => (FramePhase::Idle, FrameAction::Done),
            _ => (phase, FrameAction::Wait),
        },
    }
}

/// The phase reached and the actions asked for when the driver, starting in
/// `phase`, receives `events` in order.
pub open spec fn run(phase: FramePhase, events: Seq<FrameEvent>, size: Size) -> (FramePhase, Seq<FrameAction>)
    decreases events.len(),
{
    if events.len() == 0 {
        (phase, Seq::empty())
    } else {
        let (next, action) = transition(phase, events[0], size);
        let (last, rest) = run(next, events.drop_first(), size);
        (last, seq![action] + rest)
    }
}

pub open spec fn count_ticks(events: Seq<FrameEvent>) -> nat
    decreases events.len(),
{
    if events.len() == 0 {
        0
    } else {
        (if events[0] is Tick { 1nat } else { 0nat }) + count_ticks(events.drop_first())
    }
}

pub open spec fn count_records(actions: Seq<FrameAction>) -> nat
    decreases actions.len(),
{
    if actions.len() == 0 {
        0
    } else {
        (if actions[0] is Record { 1nat } else { 0nat }) + count_records(actions.drop_first())
    }
}

pub open spec fn count_reconfigures(actions: Seq<FrameAction>) -> nat
    decreases actions.len(),
{
    if actions.len() == 0 {
        0
    } else {
        (if actions[0] is Reconfigure { 1nat } else { 0nat }) + count_reconfigures(actions.drop_first())
    }
}

/// 1 while a tick's frame may still be recorded.
spec fn record_pending(phase: FramePhase) -> nat {
    if phase is Acquiring || phase is Reconfiguring { 1 } else { 0 }
}

/// 1 while a tick's frame may still reconfigure the surface.
spec fn retry_pending(phase: FramePhase) -> nat {
    if phase == (FramePhase::Acquiring { retried: false }) { 1 } else { 0 }
}

proof fn lemma_run_bounds(phase: FramePhase, events: Seq<FrameEvent>, size: Size)
    ensures
        count_records(run(phase, events, size).1) + record_pending(run(phase, events, size).0)
            <= count_ticks(events) + record_pending(phase),
        count_reconfigures(run(phase, events, size).1) + retry_pending(run(phase, events, size).0)
            <= count_ticks(events) + retry_pending(phase),
    decreases events.len(),
{
    if events.len() > 0 {
        let (next, action) = transition(phase, events[0], size);
        let (last, rest) = run(next, events.drop_first(), size);
        lemma_run_bounds(next, events.drop_first(), size);
        assert((seq![action] + rest).drop_first() =~= rest);
    }
}

/// Each tick presents at most one frame and reconfigures the surface at
/// most once: whatever the backend reports, starting from an idle driver,
/// the driver asks to record no more frames, and to reconfigure no more
/// often, than it was ticked.
pub proof fn lemma_one_frame_per_tick(events: Seq<FrameEvent>, size: Size)
    ensures
        count_records(run(FramePhase::Idle, events, size).1) <= count_ticks(events),
        count_reconfigures(run(FramePhase::Idle, events, size).1) <= count_ticks(events),
{
    lemma_run_bounds(FramePhase::Idle, events, size);
}

} // verus!
