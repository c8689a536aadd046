//! The recording session controller: one session at a time, from a start
//! request through recording and finalizing back to idle.
//!
//! The controller decides; its caller acts. Each event that reaches it gives
//! the next state and the one action that the caller is to carry out.

use vstd::prelude::*;
use vstd::string::*;

verus! {

/// Where the controller stands.
#[derive(Clone, Copy, Debug, PartialEq, Eq, Structural)]
pub enum SessionState {
    /// No session exists.
    Idle,
    /// A session exists and its worker runs.
    Recording,
    /// A stop was requested: the worker is joined and the streams are merged.
    Finalizing,
}

/// What went wrong in a session.
#[derive(Clone, Copy, Debug, PartialEq, Eq, Structural)]
pub enum SessionError {
    /// The camera or the microphone could not be opened or read.
    Device,
    /// The codec rejected a frame of samples.
    Codec,
    /// A write to the video or audio sink failed.
    Sink,
    /// The muxer could not be launched or ended with a status other than zero.
    Mux,
}

/// What the controller is told.
#[derive(Clone, Copy, Debug, PartialEq, Eq, Structural)]
pub enum SessionEvent {
    /// The user asks for a recording.
    StartRequested,
    /// The user asks for the recording to end, or the process shuts down.
    StopRequested,
    /// The worker was joined, and ended with this failure if any.
    WorkerJoined { failure: Option<SessionError> },
    /// The muxer ended with this exit status, or could not be launched.
    MuxerExited { status: Option<i32> },
}

/// What the caller is to do next.
#[derive(Clone, Copy, Debug, PartialEq, Eq, Structural)]
pub enum SessionAction {
    /// Nothing: the event changes nothing.
    Nothing,
    /// Open the sinks and the audio stream, raise the liveness flag and spawn
    /// the worker.
    StartWorker,
    /// Lower the liveness flag, join the worker and close the audio stream.
    StopWorker,
    /// Run the muxer on the two temporary files.
    RunMuxer,
    /// Delete the two temporary files: the merged file is complete.
    RemoveTemporaries,
    /// Keep the temporary files and tell the user of the failure.
    Report { error: SessionError },
}

/// The keys that the preview acts on.
#[derive(Clone, Copy, Debug, PartialEq, Eq, Structural)]
pub enum KeyCommand {
    /// End the program, after any recording has been stopped.
    Quit,
    /// Start a recording, or stop the one that runs.
    ToggleRecording,
    /// Any other key.
    Ignore,
}

/// An exit status of zero, and nothing else, is a success of the muxer.
pub open spec fn mux_succeeded_spec(status: Option<i32>) -> bool {
    status == Some(0i32)
}

/// The state that follows `state` on `event`.
pub open spec fn next_state(state: SessionState, event: SessionEvent) -> SessionState {
    match (state, event) {
        (SessionState::Idle, SessionEvent::StartRequested) => SessionState::Recording,
        (SessionState::Recording, SessionEvent::StopRequested) => SessionState::Finalizing,
        (SessionState::Finalizing, SessionEvent::WorkerJoined { failure }) => if failure.is_some() {
            SessionState::Idle
        } else {
            SessionState::Finalizing
        },
        (SessionState::Finalizing, SessionEvent::MuxerExited { status }) => SessionState::Idle,
        _ => state,
    }
}

/// The action that `event` calls for in `state`.
pub open spec fn action_for(state: SessionState, event: SessionEvent) -> SessionAction {
    match (state, event) {
        (SessionState::Idle, SessionEvent::StartRequested) => SessionAction::StartWorker,
        (SessionState::Recording, SessionEvent::StopRequested) => SessionAction::StopWorker,
        (SessionState::Finalizing, SessionEvent::WorkerJoined { failure }) => match failure {
            Some(error) => SessionAction::Report { error },
            None => SessionAction::RunMuxer,
        },
        (SessionState::Finalizing, SessionEvent::MuxerExited { status }) => if mux_succeeded_spec(
            status,
        ) {
            SessionAction::RemoveTemporaries
        } else {
            SessionAction::Report { error: SessionError::Mux }
        },
        _ => SessionAction::Nothing,
    }
}

/// The liveness flag that the worker polls: raised while recording only.
pub open spec fn live_in(state: SessionState) -> bool {
    state == SessionState::Recording
}

/// A session exists in every state but idle.
pub open spec fn active_in(state: SessionState) -> bool {
    state != SessionState::Idle
}

/// The state that a run of events leads to from `start`.
pub open spec fn state_after(start: SessionState, events: Seq<SessionEvent>) -> SessionState
    decreases events.len(),
{
    if events.len() == 0 {
        start
    } else {
        next_state(state_after(start, events.drop_last()), events.last())
    }
}

/// How often a run of events from `start` calls for the action `wanted`.
pub open spec fn times_asked(
    start: SessionState,
    events: Seq<SessionEvent>,
    wanted: SessionAction,
) -> nat
    decreases events.len(),
{
    if events.len() == 0 {
        0
    } else {
        let before = events.drop_last();
        let asked: nat = if action_for(state_after(start, before), events.last()) == wanted {
            1
        } else {
            0
        };
        times_asked(start, before, wanted) + asked
    }
}

/// How often a run of events from `start` ends a session: by deleting the
/// temporary files or by reporting a failure.
pub open spec fn times_ended(start: SessionState, events: Seq<SessionEvent>) -> nat {
    times_asked(start, events, SessionAction::RemoveTemporaries) + times_asked(
        start,
        events,
        SessionAction::Report { error: SessionError::Device },
    ) + times_asked(start, events, SessionAction::Report { error: SessionError::Codec })
        + times_asked(start, events, SessionAction::Report { error: SessionError::Sink })
        + times_asked(start, events, SessionAction::Report { error: SessionError::Mux })
}

/// The command that a key stands for.
pub open spec fn key_command_spec(key: char) -> KeyCommand {
    if key == 'q' {
        KeyCommand::Quit
    } else if key == 'r' {
        KeyCommand::ToggleRecording
    } else {
        KeyCommand::Ignore
    }
}

/// The event that the toggle key stands for: a start when idle, a stop
/// otherwise.
pub open spec fn toggle_event_spec(state: SessionState) -> SessionEvent {
    if state == SessionState::Idle {
        SessionEvent::StartRequested
    } else {
        SessionEvent::StopRequested
    }
}

/// The event that a key stands for in a state, if any: the toggle key
/// starts or stops, the quit key stops a recording that runs, and no other
/// key means anything.
pub open spec fn key_event_spec(state: SessionState, key: char) -> Option<SessionEvent> {
    match key_command_spec(key) {
        KeyCommand::Quit => if live_in(state) {
            Some(SessionEvent::StopRequested)
        } else {
            None
        },
        KeyCommand::ToggleRecording => Some(toggle_event_spec(state)),
        KeyCommand::Ignore => None,
    }
}

/// What a key press led to.
#[derive(Clone, Copy, Debug, PartialEq, Eq, Structural)]
pub struct KeyOutcome {
    /// The preview loop is to end once `action` is carried out.
    pub quit: bool,
    /// What the caller is to do for the session.
    pub action: SessionAction,
}

/// Whether the muxer succeeded.
pub fn mux_succeeded(status: Option<i32>) -> (ok: bool)
    ensures
        ok == mux_succeeded_spec(status),
{
    match status {
        Some(code) => code == 0,
        None => false,
    }
}

/// The command that a key stands for.
pub fn key_command(key: char) -> (command: KeyCommand)
    ensures
        command == key_command_spec(key),
{
    if key == 'q' {
        KeyCommand::Quit
    } else if key == 'r' {
        KeyCommand::ToggleRecording
    } else {
        KeyCommand::Ignore
    }
}

/// The words that the status line shows for a state.
pub fn status_label(state: SessionState) -> (label: String)
    ensures
        label@ == if live_in(state) {
            "Recording"@
        } else {
            "Not Recording"@
        },
{
    match state {
        SessionState::Recording => String::from_str("Recording"),
        _ => String::from_str("Not Recording"),
    }
}

/// The controller.
pub struct Session {
    pub state: SessionState,
}

impl Session {
    /// A controller with no session.
    pub fn new() -> (session: Session)
        ensures
            session.state == SessionState::Idle,
    {
        Session { state: SessionState::Idle }
    }

    /// The liveness flag as the worker is to see it.
    pub fn is_live(&self) -> (live: bool)
        ensures
            live == live_in(self.state),
    {
        match self.state {
            SessionState::Recording => true,
            _ => false,
        }
    }

    /// Whether a session exists.
    pub fn is_active(&self) -> (active: bool)
        ensures
            active == active_in(self.state),
    {
        match self.state {
            SessionState::Idle => false,
            _ => true,
        }
    }

    /// The event that the toggle key stands for now.
    pub fn toggle_event(&self) -> (event: SessionEvent)
        ensures
            event == toggle_event_spec(self.state),
    {
        match self.state {
            SessionState::Idle => SessionEvent::StartRequested,
            _ => SessionEvent::StopRequested,
        }
    }

    /// Takes one key press: the quit key ends the preview, after stopping a
    /// recording that runs; the toggle key starts a recording or stops it.
    pub fn on_key(&mut self, key: char) -> (outcome: KeyOutcome)
        ensures
            outcome.quit == (key_command_spec(key) == KeyCommand::Quit),
            outcome.quit ==> !live_in(final(self).state),
            match key_event_spec(old(self).state, key) {
                Some(event) => final(self).state == next_state(old(self).state, event)
                    && outcome.action == action_for(old(self).state, event),
                None => final(self).state == old(self).state && outcome.action
                    == SessionAction::Nothing,
            },
    {
        match key_command(key) {
            KeyCommand::Quit => {
                let action = if self.is_live() {
                    self.step(SessionEvent::StopRequested)
                } else {
                    SessionAction::Nothing
                };
                KeyOutcome { quit: true, action }
            },
            KeyCommand::ToggleRecording => {
                let event = self.toggle_event();
                let action = self.step(event);
                KeyOutcome { quit: false, action }
            },
            KeyCommand::Ignore => KeyOutcome { quit: false, action: SessionAction::Nothing },
        }
    }

    /// Takes one event: moves to the state that follows and returns what the
    /// caller is to do.
    pub fn step(&mut self, event: SessionEvent) -> (action: SessionAction)
        ensures
            final(self).state == next_state(old(self).state, event),
            action == action_for(old(self).state, event),
            event == SessionEvent::StartRequested && active_in(old(self).state) ==> action
                == SessionAction::Nothing && final(self).state == old(self).state,
            event == SessionEvent::StopRequested ==> !live_in(final(self).state),
    {
        let (state, action) = match (self.state, event) {
            (SessionState::Idle, SessionEvent::StartRequested) => (
                SessionState::Recording,
                SessionAction::StartWorker,
            ),
            (SessionState::Recording, SessionEvent::StopRequested) => (
                SessionState::Finalizing,
                SessionAction::StopWorker,
            ),
            (SessionState::Finalizing, SessionEvent::WorkerJoined { failure }) => match failure {
                Some(error) => (SessionState::Idle, SessionAction::Report { error }),
                None => (SessionState::Finalizing, SessionAction::RunMuxer),
            },
            (SessionState::Finalizing, SessionEvent::MuxerExited { status }) => if mux_succeeded(
                status,
            ) {
                (SessionState::Idle, SessionAction::RemoveTemporaries)
            } else {
                (SessionState::Idle, SessionAction::Report { error: SessionError::Mux })
            },
            (state, _) => (state, SessionAction::Nothing),
        };
        self.state = state;
        action
    }
}

/// A start request while a session exists changes nothing and asks for
/// nothing: no second worker, no sink opened anew.
pub proof fn start_while_active_is_ignored(state: SessionState)
    requires
        active_in(state),
    ensures
        next_state(state, SessionEvent::StartRequested) == state,
        action_for(state, SessionEvent::StartRequested) == SessionAction::Nothing,
{
}

/// A worker is asked for in one case only: a start request when idle.
pub proof fn worker_started_only_from_idle(state: SessionState, event: SessionEvent)
    ensures
        action_for(state, event) == SessionAction::StartWorker <==> state == SessionState::Idle
            && event == SessionEvent::StartRequested,
{
}

/// Whatever events arrive, in whatever order: every worker that was started
/// has been stopped and joined before the next is started, so that at most
/// one exists at any time, and one exists exactly while the flag is up.
pub proof fn one_worker_at_a_time(events: Seq<SessionEvent>)
    ensures
        times_asked(SessionState::Idle, events, SessionAction::StartWorker) == times_asked(
            SessionState::Idle,
            events,
            SessionAction::StopWorker,
        ) + if live_in(state_after(SessionState::Idle, events)) {
            1nat
        } else {
            0nat
        },
    decreases events.len(),
{
    if events.len() > 0 {
        one_worker_at_a_time(events.drop_last());
    }
}

/// Whatever events arrive: every session that was stopped has ended in
/// one of two ways, its temporary files deleted or a failure reported, unless
/// it is still being finalized. So nothing is deleted or reported twice.
pub proof fn each_stopped_session_ends_once(events: Seq<SessionEvent>)
    ensures
        times_ended(SessionState::Idle, events) + if state_after(SessionState::Idle, events)
            == SessionState::Finalizing {
            1nat
        } else {
            0nat
        } == times_asked(SessionState::Idle, events, SessionAction::StopWorker),
    decreases events.len(),
{
    if events.len() > 0 {
        each_stopped_session_ends_once(events.drop_last());
    }
}

/// After a stop request the liveness flag is down, whatever the state was,
/// and the join of the worker is asked for exactly where one was running.
pub proof fn stop_lowers_liveness(state: SessionState)
    ensures
        !live_in(next_state(state, SessionEvent::StopRequested)),
        action_for(state, SessionEvent::StopRequested) == SessionAction::StopWorker <==> live_in(
            state,
        ),
        state == SessionState::Finalizing ==> next_state(state, SessionEvent::StopRequested)
            == state && action_for(state, SessionEvent::StopRequested) == SessionAction::Nothing,
{
}

/// The liveness flag rises only on a start that is accepted and falls only
/// on a stop request.
pub proof fn liveness_changes_only_on_request(state: SessionState, event: SessionEvent)
    ensures
        !live_in(state) && live_in(next_state(state, event)) ==> state == SessionState::Idle
            && event == SessionEvent::StartRequested,
        live_in(state) && !live_in(next_state(state, event)) ==> event
            == SessionEvent::StopRequested,
{
}

/// When the muxer has ended the session is over either way. The temporary
/// files are deleted if and only if it succeeded; where it failed they are
/// kept and the failure is reported.
pub proof fn muxer_exit_decides_cleanup(status: Option<i32>)
    ensures
        next_state(SessionState::Finalizing, SessionEvent::MuxerExited { status })
            == SessionState::Idle,
        mux_succeeded_spec(status) ==> action_for(
            SessionState::Finalizing,
            SessionEvent::MuxerExited { status },
        ) == SessionAction::RemoveTemporaries,
        !mux_succeeded_spec(status) ==> action_for(
            SessionState::Finalizing,
            SessionEvent::MuxerExited { status },
        ) == (SessionAction::Report { error: SessionError::Mux }),
{
}

/// The temporary files are deleted in one case only: the muxer exited with
/// status zero while the session was finalizing.
pub proof fn temporaries_removed_only_after_merge(state: SessionState, event: SessionEvent)
    ensures
        action_for(state, event) == SessionAction::RemoveTemporaries <==> state
            == SessionState::Finalizing && event == (SessionEvent::MuxerExited {
            status: Some(0i32),
        }),
{
}

/// A worker that failed ends the session at once: the failure is reported
/// and the muxer is not run.
pub proof fn worker_failure_ends_session(error: SessionError)
    ensures
        next_state(
            SessionState::Finalizing,
            SessionEvent::WorkerJoined { failure: Some(error) },
        ) == SessionState::Idle,
        action_for(SessionState::Finalizing, SessionEvent::WorkerJoined { failure: Some(error) })
            == (SessionAction::Report { error }),
{
}

} // verus!
