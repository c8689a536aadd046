use ascii_webcam::mux::{final_output_name, mux_arguments, temp_audio_name, temp_video_name};
use ascii_webcam::pacing::{
    frame_budget_micros, frame_interval_millis, pacing_sleep, MICROS_PER_SECOND, TARGET_FPS,
};
use ascii_webcam::session::{
    key_command, mux_succeeded, status_label, KeyCommand, KeyOutcome, Session, SessionAction,
    SessionError,
    SessionEvent, SessionState,
};

#[test]
fn new_session_is_idle() {
    let session = Session::new();
    assert_eq!(session.state, SessionState::Idle);
    assert!(!session.is_live());
    assert!(!session.is_active());
}

#[test]
fn start_from_idle_spawns_worker() {
    let mut session = Session::new();
    assert_eq!(session.step(SessionEvent::StartRequested), SessionAction::StartWorker);
    assert_eq!(session.state, SessionState::Recording);
    assert!(session.is_live());
    assert!(session.is_active());
}

#[test]
fn second_start_is_ignored() {
    let mut session = Session::new();
    session.step(SessionEvent::StartRequested);
    assert_eq!(session.step(SessionEvent::StartRequested), SessionAction::Nothing);
    assert_eq!(session.state, SessionState::Recording);
    session.step(SessionEvent::StopRequested);
    assert_eq!(session.step(SessionEvent::StartRequested), SessionAction::Nothing);
    assert_eq!(session.state, SessionState::Finalizing);
}

#[test]
fn stop_joins_worker_and_lowers_flag() {
    let mut session = Session::new();
    session.step(SessionEvent::StartRequested);
    assert_eq!(session.step(SessionEvent::StopRequested), SessionAction::StopWorker);
    assert_eq!(session.state, SessionState::Finalizing);
    assert!(!session.is_live());
    assert!(session.is_active());
}

#[test]
fn stop_is_idempotent() {
    let mut session = Session::new();
    assert_eq!(session.step(SessionEvent::StopRequested), SessionAction::Nothing);
    assert_eq!(session.state, SessionState::Idle);
    session.step(SessionEvent::StartRequested);
    session.step(SessionEvent::StopRequested);
    assert_eq!(session.step(SessionEvent::StopRequested), SessionAction::Nothing);
    assert_eq!(session.state, SessionState::Finalizing);
    assert!(!session.is_live());
}

#[test]
fn successful_merge_removes_temporaries() {
    let mut session = Session::new();
    session.step(SessionEvent::StartRequested);
    session.step(SessionEvent::StopRequested);
    assert_eq!(
        session.step(SessionEvent::WorkerJoined { failure: None }),
        SessionAction::RunMuxer
    );
    assert_eq!(session.state, SessionState::Finalizing);
    assert_eq!(
        session.step(SessionEvent::MuxerExited { status: Some(0) }),
        SessionAction::RemoveTemporaries
    );
    assert_eq!(session.state, SessionState::Idle);
}

#[test]
fn failed_merge_keeps_temporaries() {
    let mut session = Session::new();
    session.step(SessionEvent::StartRequested);
    session.step(SessionEvent::StopRequested);
    session.step(SessionEvent::WorkerJoined { failure: None });
    assert_eq!(
        session.step(SessionEvent::MuxerExited { status: Some(1) }),
        SessionAction::Report { error: SessionError::Mux }
    );
    assert_eq!(session.state, SessionState::Idle);
}

#[test]
fn muxer_that_cannot_start_is_a_failure() {
    let mut session = Session::new();
    session.step(SessionEvent::StartRequested);
    session.step(SessionEvent::StopRequested);
    session.step(SessionEvent::WorkerJoined { failure: None });
    assert_eq!(
        session.step(SessionEvent::MuxerExited { status: None }),
        SessionAction::Report { error: SessionError::Mux }
    );
    assert_eq!(session.state, SessionState::Idle);
}

#[test]
fn worker_failure_is_reported_without_merge() {
    for error in [SessionError::Device, SessionError::Codec, SessionError::Sink] {
        let mut session = Session::new();
        session.step(SessionEvent::StartRequested);
        session.step(SessionEvent::StopRequested);
        assert_eq!(
            session.step(SessionEvent::WorkerJoined { failure: Some(error) }),
            SessionAction::Report { error }
        );
        assert_eq!(session.state, SessionState::Idle);
    }
}

#[test]
fn stray_events_change_nothing() {
    let mut session = Session::new();
    assert_eq!(session.step(SessionEvent::MuxerExited { status: Some(0) }), SessionAction::Nothing);
    assert_eq!(session.step(SessionEvent::WorkerJoined { failure: None }), SessionAction::Nothing);
    assert_eq!(session.state, SessionState::Idle);
    session.step(SessionEvent::StartRequested);
    assert_eq!(session.step(SessionEvent::MuxerExited { status: Some(0) }), SessionAction::Nothing);
    assert_eq!(session.state, SessionState::Recording);
}

#[test]
fn session_can_be_started_again_after_it_ended() {
    let mut session = Session::new();
    session.step(SessionEvent::StartRequested);
    session.step(SessionEvent::StopRequested);
    session.step(SessionEvent::WorkerJoined { failure: None });
    session.step(SessionEvent::MuxerExited { status: Some(2) });
    assert_eq!(session.step(SessionEvent::StartRequested), SessionAction::StartWorker);
}

#[test]
fn toggle_starts_then_stops() {
    let mut session = Session::new();
    assert_eq!(session.toggle_event(), SessionEvent::StartRequested);
    session.step(SessionEvent::StartRequested);
    assert_eq!(session.toggle_event(), SessionEvent::StopRequested);
    session.step(SessionEvent::StopRequested);
    assert_eq!(session.toggle_event(), SessionEvent::StopRequested);
}

#[test]
fn keys() {
    assert_eq!(key_command('q'), KeyCommand::Quit);
    assert_eq!(key_command('r'), KeyCommand::ToggleRecording);
    assert_eq!(key_command('x'), KeyCommand::Ignore);
    assert_eq!(key_command('Q'), KeyCommand::Ignore);
}

#[test]
fn only_status_zero_is_success() {
    assert!(mux_succeeded(Some(0)));
    assert!(!mux_succeeded(Some(1)));
    assert!(!mux_succeeded(Some(-1)));
    assert!(!mux_succeeded(None));
}

#[test]
fn status_words() {
    assert_eq!(status_label(SessionState::Recording), "Recording");
    assert_eq!(status_label(SessionState::Idle), "Not Recording");
    assert_eq!(status_label(SessionState::Finalizing), "Not Recording");
}

#[test]
fn muxer_command_line() {
    let arguments = mux_arguments("v.mp4", "a.opus", "out.mp4");
    assert_eq!(
        arguments,
        vec!["-i", "v.mp4", "-i", "a.opus", "-c:v", "copy", "-c:a", "aac", "out.mp4"]
    );
}

#[test]
fn file_names() {
    assert_eq!(temp_video_name(), "output_ascii.mp4");
    assert_eq!(temp_audio_name(), "output.opus");
    assert_eq!(final_output_name(), "final_output.mp4");
}

#[test]
fn frame_budget() {
    assert_eq!(TARGET_FPS, 30);
    assert_eq!(MICROS_PER_SECOND, 1_000_000);
    assert_eq!(frame_budget_micros(30), 33_333);
    assert_eq!(frame_budget_micros(1), 1_000_000);
    assert_eq!(frame_budget_micros(2_000_000), 0);
    assert_eq!(frame_interval_millis(30), 33);
}

#[test]
fn fast_iteration_sleeps_the_remainder() {
    assert_eq!(pacing_sleep(33_333, 10_000), 23_333);
    assert_eq!(pacing_sleep(33_333, 0), 33_333);
    assert_eq!(pacing_sleep(33_333, 33_332), 1);
}

#[test]
fn slow_iteration_does_not_sleep() {
    assert_eq!(pacing_sleep(33_333, 33_333), 0);
    assert_eq!(pacing_sleep(33_333, 50_000), 0);
    assert_eq!(pacing_sleep(0, u64::MAX), 0);
}

#[test]
fn toggle_key_starts_and_stops() {
    let mut session = Session::new();
    let outcome = session.on_key('r');
    assert_eq!(outcome, KeyOutcome { quit: false, action: SessionAction::StartWorker });
    assert_eq!(session.state, SessionState::Recording);
    let outcome = session.on_key('r');
    assert_eq!(outcome, KeyOutcome { quit: false, action: SessionAction::StopWorker });
    assert_eq!(session.state, SessionState::Finalizing);
}

#[test]
fn quit_key_stops_a_running_recording_first() {
    let mut session = Session::new();
    session.on_key('r');
    let outcome = session.on_key('q');
    assert_eq!(outcome, KeyOutcome { quit: true, action: SessionAction::StopWorker });
    assert!(!session.is_live());
}

#[test]
fn quit_key_when_idle_just_quits() {
    let mut session = Session::new();
    let outcome = session.on_key('q');
    assert_eq!(outcome, KeyOutcome { quit: true, action: SessionAction::Nothing });
    assert_eq!(session.state, SessionState::Idle);
}

#[test]
fn other_keys_do_nothing() {
    let mut session = Session::new();
    let outcome = session.on_key('x');
    assert_eq!(outcome, KeyOutcome { quit: false, action: SessionAction::Nothing });
    assert_eq!(session.state, SessionState::Idle);
}
