//! The recording worker's loop, as decisions: one video step, then the
//! drain of the audio queue, then the pacing sleep, until the liveness flag
//! is seen down.
//!
//! The worker's caller reads the camera, encodes and writes; this module
//! says what comes next and when the loop ends.

use crate::session::SessionError;
use vstd::prelude::*;

verus! {

/// Width of the canvas that recorded frames are drawn on, in pixels.
pub const CANVAS_WIDTH: i32 = 640;

/// Height of the canvas that recorded frames are drawn on, in pixels.
pub const CANVAS_HEIGHT: i32 = 480;

/// Where the worker stands within one iteration.
#[derive(Clone, Copy, Debug, PartialEq, Eq, Structural)]
pub enum WorkerPhase {
    /// About to look at the liveness flag.
    Polling,
    /// A frame was asked of the camera.
    AwaitingFrame,
    /// A rendered frame was handed to the video sink.
    AwaitingVideoWrite,
    /// The audio queue is drained, encoded and written.
    AwaitingAudio,
    /// The pacing sleep runs.
    Sleeping,
    /// The flag was seen down: the loop has ended in good order.
    Stopped,
    /// A fatal error ended the loop.
    Failed,
}

/// What the worker is told.
#[derive(Clone, Copy, Debug, PartialEq, Eq, Structural)]
pub enum WorkerEvent {
    /// The liveness flag as it was just read.
    Liveness { live: bool },
    /// The camera returned a frame, which may be empty.
    FrameRead { empty: bool },
    /// The camera could not be read.
    FrameReadFailed,
    /// The video sink took the frame, or refused it.
    VideoWritten { ok: bool },
    /// Every full frame of audio was encoded and written, or the first
    /// failure on the way.
    AudioDrained { failure: Option<SessionError> },
    /// The pacing sleep is over.
    Slept,
}

/// What the worker's caller is to do next.
#[derive(Clone, Copy, Debug, PartialEq, Eq, Structural)]
pub enum WorkerAction {
    /// Read the liveness flag.
    CheckLiveness,
    /// Lock the camera, read one frame, unlock.
    ReadFrame,
    /// Turn the frame into glyphs, draw them and append the image to the
    /// video sink.
    RenderAndAppend,
    /// Drain, encode and write every full frame of audio.
    DrainAudio,
    /// Sleep for what is left of the frame budget.
    Sleep,
    /// Leave the loop: close the sinks.
    Finish,
    /// Leave the loop with an error.
    Abort { error: SessionError },
    /// Nothing: the event does not belong to the phase.
    Nothing,
}

/// The phase that follows `phase` on `event`.
pub open spec fn next_phase(phase: WorkerPhase, event: WorkerEvent) -> WorkerPhase {
    match (phase, event) {
        (WorkerPhase::Polling, WorkerEvent::Liveness { live }) => if live {
            WorkerPhase::AwaitingFrame
        } else {
            WorkerPhase::Stopped
        },
        (WorkerPhase::AwaitingFrame, WorkerEvent::FrameRead { empty }) => if empty {
            WorkerPhase::AwaitingAudio
        } else {
            WorkerPhase::AwaitingVideoWrite
        },
        (WorkerPhase::AwaitingFrame, WorkerEvent::FrameReadFailed) => WorkerPhase::Failed,
        (WorkerPhase::AwaitingVideoWrite, WorkerEvent::VideoWritten { ok }) => if ok {
            WorkerPhase::AwaitingAudio
        } else {
            WorkerPhase::Failed
        },
        (WorkerPhase::AwaitingAudio, WorkerEvent::AudioDrained { failure }) => if failure.is_some() {
            WorkerPhase::Failed
        } else {
            WorkerPhase::Sleeping
        },
        (WorkerPhase::Sleeping, WorkerEvent::Slept) => WorkerPhase::Polling,
        _ => phase,
    }
}

/// The action that `event` calls for in `phase`.
pub open spec fn worker_action(phase: WorkerPhase, event: WorkerEvent) -> WorkerAction {
    match (phase, event) {
        (WorkerPhase::Polling, WorkerEvent::Liveness { live }) => if live {
            WorkerAction::ReadFrame
        } else {
            WorkerAction::Finish
        },
        (WorkerPhase::AwaitingFrame, WorkerEvent::FrameRead { empty }) => if empty {
            WorkerAction::DrainAudio
        } else {
            WorkerAction::RenderAndAppend
        },
        (WorkerPhase::AwaitingFrame, WorkerEvent::FrameReadFailed) => WorkerAction::Abort {
            error: SessionError::Device,
        },
        (WorkerPhase::AwaitingVideoWrite, WorkerEvent::VideoWritten { ok }) => if ok {
            WorkerAction::DrainAudio
        } else {
            WorkerAction::Abort { error: SessionError::Sink }
        },
        (WorkerPhase::AwaitingAudio, WorkerEvent::AudioDrained { failure }) => match failure {
            Some(error) => WorkerAction::Abort { error },
            None => WorkerAction::Sleep,
        },
        (WorkerPhase::Sleeping, WorkerEvent::Slept) => WorkerAction::CheckLiveness,
        _ => WorkerAction::Nothing,
    }
}

/// The loop has ended: no event moves the worker on.
pub open spec fn ended(phase: WorkerPhase) -> bool {
    phase == WorkerPhase::Stopped || phase == WorkerPhase::Failed
}

/// The phase that a run of events leads to from `start`.
pub open spec fn phase_after(start: WorkerPhase, events: Seq<WorkerEvent>) -> WorkerPhase
    decreases events.len(),
{
    if events.len() == 0 {
        start
    } else {
        next_phase(phase_after(start, events.drop_last()), events.last())
    }
}

/// How often a run of events from `start` calls for the action `wanted`.
pub open spec fn times_called(start: WorkerPhase, events: Seq<WorkerEvent>, wanted: WorkerAction) -> nat
    decreases events.len(),
{
    if events.len() == 0 {
        0
    } else {
        let before = events.drop_last();
        let called: nat = if worker_action(phase_after(start, before), events.last()) == wanted {
            1
        } else {
            0
        };
        times_called(start, before, wanted) + called
    }
}

/// How many frames were read but not yet followed by a drain of the audio,
/// by the phase: one while the frame is awaited or written, none otherwise.
pub open spec fn frames_ahead(phase: WorkerPhase) -> nat {
    if phase == WorkerPhase::AwaitingFrame || phase == WorkerPhase::AwaitingVideoWrite {
        1
    } else {
        0
    }
}

/// Takes one event: returns the phase that follows and what the caller is
/// to do.
pub fn worker_step(phase: WorkerPhase, event: WorkerEvent) -> (next: (WorkerPhase, WorkerAction))
    ensures
        next.0 == next_phase(phase, event),
        next.1 == worker_action(phase, event),
{
    match (phase, event) {
        (WorkerPhase::Polling, WorkerEvent::Liveness { live }) => if live {
            (WorkerPhase::AwaitingFrame, WorkerAction::ReadFrame)
        } else {
            (WorkerPhase::Stopped, WorkerAction::Finish)
        },
        (WorkerPhase::AwaitingFrame, WorkerEvent::FrameRead { empty }) => if empty {
            (WorkerPhase::AwaitingAudio, WorkerAction::DrainAudio)
        } else {
            (WorkerPhase::AwaitingVideoWrite, WorkerAction::RenderAndAppend)
        },
        (WorkerPhase::AwaitingFrame, WorkerEvent::FrameReadFailed) => (
            WorkerPhase::Failed,
            WorkerAction::Abort { error: SessionError::Device },
        ),
        (WorkerPhase::AwaitingVideoWrite, WorkerEvent::VideoWritten { ok }) => if ok {
            (WorkerPhase::AwaitingAudio, WorkerAction::DrainAudio)
        } else {
            (WorkerPhase::Failed, WorkerAction::Abort { error: SessionError::Sink })
        },
        (WorkerPhase::AwaitingAudio, WorkerEvent::AudioDrained { failure }) => match failure {
            Some(error) => (WorkerPhase::Failed, WorkerAction::Abort { error }),
            None => (WorkerPhase::Sleeping, WorkerAction::Sleep),
        },
        (WorkerPhase::Sleeping, WorkerEvent::Slept) => (
            WorkerPhase::Polling,
            WorkerAction::CheckLiveness,
        ),
        (phase, _) => (phase, WorkerAction::Nothing),
    }
}

/// Whether the loop has ended.
pub fn has_ended(phase: WorkerPhase) -> (done: bool)
    ensures
        done == ended(phase),
{
    match phase {
        WorkerPhase::Stopped => true,
        WorkerPhase::Failed => true,
        _ => false,
    }
}

/// The flag seen down is the one way in which the loop ends in good order,
/// and it is looked at once in each iteration, at its start.
pub proof fn stops_only_on_lowered_flag(phase: WorkerPhase, event: WorkerEvent)
    ensures
        !ended(phase) && next_phase(phase, event) == WorkerPhase::Stopped <==> phase
            == WorkerPhase::Polling && event == (WorkerEvent::Liveness { live: false }),
{
}

/// The pacing sleep is reached from the audio drain alone, and the audio
/// drain from the video step alone: in each iteration video comes first, then
/// all of the audio, then the sleep.
pub proof fn video_then_audio_then_sleep(phase: WorkerPhase, event: WorkerEvent)
    ensures
        worker_action(phase, event) == WorkerAction::Sleep ==> phase == WorkerPhase::AwaitingAudio,
        worker_action(phase, event) == WorkerAction::DrainAudio ==> phase
            == WorkerPhase::AwaitingFrame || phase == WorkerPhase::AwaitingVideoWrite,
        worker_action(phase, event) == WorkerAction::RenderAndAppend <==> phase
            == WorkerPhase::AwaitingFrame && event == (WorkerEvent::FrameRead { empty: false }),
{
}

/// Whatever events arrive, from the start of the loop to a phase in which
/// it has not failed: every frame read was followed by a drain of the audio
/// before the next was read, every drain by a sleep before the next drain,
/// and no more frames were appended than were read.
pub proof fn each_iteration_in_order(events: Seq<WorkerEvent>)
    ensures
        ({
            let phase = phase_after(WorkerPhase::Polling, events);
            let read = times_called(WorkerPhase::Polling, events, WorkerAction::ReadFrame);
            let appended = times_called(WorkerPhase::Polling, events, WorkerAction::RenderAndAppend);
            let drained = times_called(WorkerPhase::Polling, events, WorkerAction::DrainAudio);
            let slept = times_called(WorkerPhase::Polling, events, WorkerAction::Sleep);
            &&& appended <= read
            &&& drained <= read <= drained + 1
            &&& slept <= drained <= slept + 1
            &&& phase != WorkerPhase::Failed ==> read == drained + frames_ahead(phase)
            &&& phase != WorkerPhase::Failed ==> drained == slept + if phase
                == WorkerPhase::AwaitingAudio {
                1nat
            } else {
                0nat
            }
            &&& phase != WorkerPhase::Failed ==> appended <= drained + if phase
                == WorkerPhase::AwaitingVideoWrite {
                1nat
            } else {
                0nat
            }
        }),
    decreases events.len(),
{
    if events.len() > 0 {
        each_iteration_in_order(events.drop_last());
    }
}

/// An empty frame skips the video step and nothing else: the loop goes on
/// with the audio.
pub proof fn empty_frame_is_skipped()
    ensures
        next_phase(WorkerPhase::AwaitingFrame, WorkerEvent::FrameRead { empty: true })
            == WorkerPhase::AwaitingAudio,
        worker_action(WorkerPhase::AwaitingFrame, WorkerEvent::FrameRead { empty: true })
            == WorkerAction::DrainAudio,
{
}

/// Once the loop has ended, no event starts it again.
pub proof fn ended_stays_ended(phase: WorkerPhase, event: WorkerEvent)
    requires
        ended(phase),
    ensures
        next_phase(phase, event) == phase,
        worker_action(phase, event) == WorkerAction::Nothing,
{
}

} // verus!
