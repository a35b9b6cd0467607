use dxcllistener::listener::{ListenError, Listener, RunState, WorkerExit};
use dxcllistener::recorder::{finish, record, RecordError, Recorder};
use dxcllistener::worker::ConnectOutcome;

fn listener() -> Listener {
    Listener::new("example.com".to_string(), 7300, "DL1ABC".to_string())
}

#[test]
fn new_listener_is_not_started() {
    let listener = listener();
    assert_eq!(listener.host, "example.com");
    assert_eq!(listener.port, 7300);
    assert_eq!(listener.callsign, "DL1ABC");
    assert_eq!(listener.state(), RunState::NotStarted);
    assert!(!listener.is_running());
    assert!(!listener.can_stop());
    assert!(!listener.can_join());
}

#[test]
fn listener_names_itself_and_its_target() {
    let listener = listener();
    assert_eq!(listener.address(), "example.com:7300");
    assert_eq!(listener.name(), "DL1ABC@example.com:7300");
}

#[test]
fn listener_runs_once_connected() {
    let mut listener = listener();
    assert_eq!(listener.listen(ConnectOutcome::Connected), Ok(()));
    assert_eq!(listener.state(), RunState::Running);
    assert!(listener.is_running());
    assert!(listener.can_stop());
    assert!(listener.can_join());
}

#[test]
fn refused_connection_is_reported_at_once() {
    let mut listener = listener();
    assert_eq!(listener.listen(ConnectOutcome::Refused), Err(ListenError::ConnectionError));
    assert_eq!(listener.state(), RunState::NotStarted);
    assert!(!listener.can_stop());
    assert!(!listener.can_join());
}

#[test]
fn slow_connection_is_reported_at_once() {
    let mut listener = listener();
    assert_eq!(listener.listen(ConnectOutcome::TimedOut), Err(ListenError::ConnectionTimeout));
    assert_eq!(listener.state(), RunState::NotStarted);
    assert_eq!(listener.listen(ConnectOutcome::Connected), Ok(()));
    assert!(listener.is_running());
}

#[test]
fn stop_request_before_start_is_refused() {
    let mut listener = listener();
    assert_eq!(listener.request_stop(true), Err(ListenError::ShutdownAlreadyRequested));
    assert_eq!(listener.request_stop(false), Err(ListenError::ShutdownAlreadyRequested));
    assert_eq!(listener.state(), RunState::NotStarted);
}

#[test]
fn second_stop_request_is_refused() {
    let mut listener = listener();
    assert_eq!(listener.listen(ConnectOutcome::Connected), Ok(()));
    assert_eq!(listener.request_stop(true), Ok(()));
    assert!(!listener.can_stop());
    assert_eq!(listener.request_stop(true), Err(ListenError::ShutdownAlreadyRequested));
    assert!(listener.is_running());
    assert!(listener.can_join());
}

#[test]
fn stop_request_that_finds_no_worker_is_an_internal_error() {
    let mut listener = listener();
    assert_eq!(listener.listen(ConnectOutcome::Connected), Ok(()));
    assert_eq!(listener.request_stop(false), Err(ListenError::InternalError));
    assert_eq!(listener.request_stop(false), Err(ListenError::ShutdownAlreadyRequested));
}

#[test]
fn join_hands_out_the_result_of_the_worker() {
    let mut listener = listener();
    assert_eq!(listener.listen(ConnectOutcome::Connected), Ok(()));
    assert_eq!(
        listener.join(WorkerExit::Returned(Err(ListenError::ConnectionLost))),
        Err(ListenError::ConnectionLost)
    );
    assert_eq!(listener.state(), RunState::Stopped);
    assert!(!listener.is_running());
    assert!(!listener.can_join());
}

#[test]
fn join_after_stop_is_ok() {
    let mut listener = listener();
    assert_eq!(listener.listen(ConnectOutcome::Connected), Ok(()));
    assert_eq!(listener.request_stop(true), Ok(()));
    assert_eq!(listener.join(WorkerExit::Returned(Ok(()))), Ok(()));
    assert!(!listener.is_running());
}

#[test]
fn join_of_a_torn_down_worker_is_an_internal_error() {
    let mut listener = listener();
    assert_eq!(listener.listen(ConnectOutcome::Connected), Ok(()));
    assert_eq!(listener.join(WorkerExit::Aborted), Err(ListenError::InternalError));
}

#[test]
fn second_join_fails_whatever_the_first_returned() {
    for first in [
        WorkerExit::Returned(Ok(())),
        WorkerExit::Returned(Err(ListenError::AuthenticationError)),
        WorkerExit::Aborted,
    ] {
        let mut listener = listener();
        assert_eq!(listener.listen(ConnectOutcome::Connected), Ok(()));
        let _ = listener.join(first);
        assert_eq!(
            listener.join(WorkerExit::Returned(Ok(()))),
            Err(ListenError::AlreadyJoined)
        );
        assert_eq!(listener.join(first), Err(ListenError::AlreadyJoined));
    }
}

#[test]
fn join_before_start_fails() {
    let mut listener = listener();
    assert_eq!(
        listener.join(WorkerExit::Returned(Ok(()))),
        Err(ListenError::AlreadyJoined)
    );
    assert_eq!(listener.state(), RunState::NotStarted);
}

#[test]
fn listener_notes_the_end_of_its_worker() {
    let mut listener = listener();
    listener.worker_exited();
    assert_eq!(listener.state(), RunState::NotStarted);
    assert_eq!(listener.listen(ConnectOutcome::Connected), Ok(()));
    listener.worker_exited();
    assert_eq!(listener.state(), RunState::Stopped);
    assert!(!listener.is_running());
    assert!(listener.can_join());
    assert_eq!(
        listener.join(WorkerExit::Returned(Err(ListenError::ReceiverLost))),
        Err(ListenError::ReceiverLost)
    );
}

#[test]
fn listen_error_messages() {
    assert_eq!(ListenError::UnknownError.message(), "unknown error");
    assert_eq!(ListenError::ConnectionLost.message(), "connection to server lost");
    assert_eq!(ListenError::ConnectionError.message(), "failed to connect to server");
    assert_eq!(ListenError::ConnectionTimeout.message(), "timeout while connect to server");
    assert_eq!(ListenError::AuthenticationError.message(), "failed to authenticate at server");
    assert_eq!(ListenError::InternalError.message(), "internal error");
    assert_eq!(ListenError::AlreadyJoined.message(), "listener was already joined");
    assert_eq!(ListenError::ReceiverLost.message(), "receiver for parsed spots lost");
    assert_eq!(
        ListenError::ShutdownAlreadyRequested.message(),
        "shutdown was already requested"
    );
}

#[test]
fn record_error_messages() {
    assert_eq!(RecordError::UnknownError.message(), "Error while recording: UnknownError");
    assert_eq!(RecordError::ConnectionLost.message(), "Error while recording: ConnectionLost");
    assert_eq!(RecordError::ConnectionError.message(), "Error while recording: ConnectionError");
    assert_eq!(
        RecordError::AuthenticationError.message(),
        "Error while recording: AuthenticationError"
    );
    assert_eq!(RecordError::InternalError.message(), "Error while recording: InternalError");
    assert_eq!(RecordError::AlreadyJoined.message(), "Error while recording: AlreadyJoined");
    for error in [
        RecordError::UnknownError,
        RecordError::ConnectionLost,
        RecordError::ConnectionError,
        RecordError::AuthenticationError,
        RecordError::InternalError,
        RecordError::AlreadyJoined,
    ] {
        assert_eq!(error.message(), format!("Error while recording: {:?}", error));
    }
}

fn recorder() -> Recorder {
    record(
        "example.com".to_string(),
        7300,
        "DL1ABC".to_string(),
        ConnectOutcome::Connected,
        true,
    )
    .unwrap()
}

#[test]
fn record_starts_a_running_recorder() {
    let mut recorder = recorder();
    assert_eq!(recorder.host, "example.com");
    assert_eq!(recorder.port, 7300);
    assert_eq!(recorder.callsign, "DL1ABC");
    assert!(recorder.is_running());
    assert!(recorder.can_join());
    assert!(!recorder.stop_requested());
    assert_eq!(recorder.address(), "example.com:7300");
    assert_eq!(recorder.name(), "DL1ABC@example.com:7300");
}

#[test]
fn record_reports_a_failed_connection_at_once() {
    for spawned in [false, true] {
        let refused = record(
            "example.com".to_string(),
            7300,
            "DL1ABC".to_string(),
            ConnectOutcome::Refused,
            spawned,
        );
        assert_eq!(refused.err(), Some(RecordError::ConnectionError));
        let slow = record(
            "example.com".to_string(),
            7300,
            "DL1ABC".to_string(),
            ConnectOutcome::TimedOut,
            spawned,
        );
        assert_eq!(slow.err(), Some(RecordError::ConnectionError));
    }
}

#[test]
fn record_without_a_thread_is_an_internal_error() {
    let result = record(
        "example.com".to_string(),
        7300,
        "DL1ABC".to_string(),
        ConnectOutcome::Connected,
        false,
    );
    assert_eq!(result.err(), Some(RecordError::InternalError));
}

#[test]
fn stop_request_on_a_recorder_stands() {
    let mut recorder = recorder();
    recorder.request_stop();
    assert!(recorder.stop_requested());
    assert!(recorder.is_running());
    recorder.request_stop();
    assert!(recorder.stop_requested());
    recorder.worker_exited();
    assert!(recorder.stop_requested());
    assert!(!recorder.is_running());
    assert!(recorder.can_join());
    assert_eq!(recorder.join(WorkerExit::Returned(Ok(()))), Ok(()));
    assert!(recorder.stop_requested());
    assert!(!recorder.is_running());
}

#[test]
fn recorder_whose_worker_has_ended_is_not_running() {
    let mut recorder = recorder();
    assert!(recorder.is_running());
    recorder.worker_exited();
    assert!(!recorder.is_running());
    assert!(!recorder.stop_requested());
    recorder.worker_exited();
    assert!(!recorder.is_running());
}

#[test]
fn recorder_hands_out_the_result_of_its_worker() {
    let mut recorder = recorder();
    assert_eq!(
        recorder.join(WorkerExit::Returned(Err(ListenError::ConnectionLost))),
        Err(RecordError::ConnectionLost)
    );
    assert!(!recorder.can_join());
    assert!(!recorder.is_running());
}

#[test]
fn join_of_a_torn_down_recorder_is_an_internal_error() {
    let mut recorder = recorder();
    assert_eq!(recorder.join(WorkerExit::Aborted), Err(RecordError::InternalError));
    assert!(!recorder.is_running());
}

#[test]
fn second_join_of_a_recorder_fails_whatever_the_first_returned() {
    for first in [
        WorkerExit::Returned(Ok(())),
        WorkerExit::Returned(Err(ListenError::AuthenticationError)),
        WorkerExit::Aborted,
    ] {
        let mut recorder = recorder();
        let _ = recorder.join(first);
        assert_eq!(
            recorder.join(WorkerExit::Returned(Ok(()))),
            Err(RecordError::AlreadyJoined)
        );
        assert_eq!(recorder.join(first), Err(RecordError::AlreadyJoined));
        assert!(!recorder.is_running());
        assert!(!recorder.can_join());
    }
}

#[test]
fn finish_keeps_the_errors_a_recorder_knows() {
    assert_eq!(finish(Err(ListenError::UnknownError)), Err(RecordError::UnknownError));
    assert_eq!(finish(Err(ListenError::ConnectionLost)), Err(RecordError::ConnectionLost));
    assert_eq!(finish(Err(ListenError::ConnectionError)), Err(RecordError::ConnectionError));
    assert_eq!(
        finish(Err(ListenError::AuthenticationError)),
        Err(RecordError::AuthenticationError)
    );
    assert_eq!(finish(Err(ListenError::InternalError)), Err(RecordError::InternalError));
    assert_eq!(finish(Err(ListenError::AlreadyJoined)), Err(RecordError::AlreadyJoined));
}

#[test]
fn finish_folds_the_other_errors() {
    assert_eq!(finish(Err(ListenError::ConnectionTimeout)), Err(RecordError::ConnectionError));
    assert_eq!(finish(Err(ListenError::ReceiverLost)), Err(RecordError::InternalError));
    assert_eq!(
        finish(Err(ListenError::ShutdownAlreadyRequested)),
        Err(RecordError::InternalError)
    );
}

#[test]
fn finish_after_a_stop_is_ok() {
    assert_eq!(finish(Ok(())), Ok(()));
}
