//! The supervisor of one connection whose worker runs as a thread and hands
//! each spot to a callback.

use vstd::prelude::*;

use crate::endpoint::{address, address_of, name, name_of};
use crate::listener::{ListenError, RunState, WorkerExit};
use crate::worker::ConnectOutcome;

verus! {

/// Possible errors while recording
#[derive(Clone, Copy, Debug, PartialEq, Eq, Structural)]
pub enum RecordError {
    /// Unknown error
    UnknownError,
    /// Connection to server lost
    ConnectionLost,
    /// Connection error (failed to connect)
    ConnectionError,
    /// Authentication error
    AuthenticationError,
    /// Internal error
    InternalError,
    /// The result of the worker was already taken
    AlreadyJoined,
}

impl RecordError {
    /// The name of the variant.
    pub open spec fn variant(self) -> Seq<char> {
        match self {
            RecordError::UnknownError => "UnknownError"@,
            RecordError::ConnectionLost => "ConnectionLost"@,
            RecordError::ConnectionError => "ConnectionError"@,
            RecordError::AuthenticationError => "AuthenticationError"@,
            RecordError::InternalError => "InternalError"@,
            RecordError::AlreadyJoined => "AlreadyJoined"@,
        }
    }

    /// The words that describe the error.
    pub open spec fn text(self) -> Seq<char> {
        "Error while recording: "@ + self.variant()
    }

    /// The words that describe the error, for a message to the user.
    pub fn message(&self) -> (m: String)
        ensures
            m@ == self.text(),
    {
        let mut m = String::from_str("Error while recording: ");
        m.append(
            match self {
                RecordError::UnknownError => "UnknownError",
                RecordError::ConnectionLost => "ConnectionLost",
                RecordError::ConnectionError => "ConnectionError",
                RecordError::AuthenticationError => "AuthenticationError",
                RecordError::InternalError => "InternalError",
                RecordError::AlreadyJoined => "AlreadyJoined",
            },
        );
        m
    }
}

/// The error of a recorder for an error that its worker ended with. A
/// recorder tells fewer errors apart: a connection that timed out failed to
/// connect, and what its worker cannot end with is an internal error.
pub open spec fn recorded(error: ListenError) -> RecordError {
    match error {
        ListenError::UnknownError => RecordError::UnknownError,
        ListenError::ConnectionLost => RecordError::ConnectionLost,
        ListenError::ConnectionError => RecordError::ConnectionError,
        ListenError::ConnectionTimeout => RecordError::ConnectionError,
        ListenError::AuthenticationError => RecordError::AuthenticationError,
        ListenError::InternalError => RecordError::InternalError,
        ListenError::AlreadyJoined => RecordError::AlreadyJoined,
        ListenError::ReceiverLost => RecordError::InternalError,
        ListenError::ShutdownAlreadyRequested => RecordError::InternalError,
    }
}

/// The result of a recording whose worker ended with `result`: a worker that
/// stopped on request leaves `Ok(())`, whatever else happened while the
/// connection was taken down, and an error is kept as far as a recorder can
/// tell it.
pub open spec fn finished(result: Result<(), ListenError>) -> Result<(), RecordError> {
    match result {
        Ok(()) => Ok(()),
        Err(error) => Err(recorded(error)),
    }
}

/// The result of a recording, from the result of its worker.
pub fn finish(result: Result<(), ListenError>) -> (returned: Result<(), RecordError>)
    ensures
        returned == finished(result),
{
    match result {
        Ok(()) => Ok(()),
        Err(error) => Err(
            match error {
                ListenError::UnknownError => RecordError::UnknownError,
                ListenError::ConnectionLost => RecordError::ConnectionLost,
                ListenError::ConnectionError => RecordError::ConnectionError,
                ListenError::ConnectionTimeout => RecordError::ConnectionError,
                ListenError::AuthenticationError => RecordError::AuthenticationError,
                ListenError::AlreadyJoined => RecordError::AlreadyJoined,
                _ => RecordError::InternalError,
            },
        ),
    }
}

/// The supervisor of one recording: the target and the callsign, whether
/// the worker runs, whether it was asked to stop, and whether its result can
/// still be taken.
pub struct Recorder {
    /// Host of the cluster server
    pub host: String,
    /// Port of the cluster server
    pub port: u16,
    /// Callsign to use for authentication
    pub callsign: String,
    state: RunState,
    stop_requested: bool,
    joinable: bool,
}

/// The state of a `Recorder`.
pub struct RecorderView {
    pub host: Seq<char>,
    pub port: u16,
    pub callsign: Seq<char>,
    pub state: RunState,
    pub stop_requested: bool,
    pub joinable: bool,
}

impl View for Recorder {
    type V = RecorderView;

    closed spec fn view(&self) -> RecorderView {
        RecorderView {
            host: self.host@,
            port: self.port,
            callsign: self.callsign@,
            state: self.state,
            stop_requested: self.stop_requested,
            joinable: self.joinable,
        }
    }
}

/// What `record` returns: a running recorder where the connection was opened
/// and the worker started, the error of the connection where it was not
/// opened, and an internal error where the worker could not be started.
pub open spec fn recording(
    host: Seq<char>,
    port: u16,
    callsign: Seq<char>,
    connect: ConnectOutcome,
    spawned: bool,
) -> Result<RecorderView, RecordError> {
    match connect {
        ConnectOutcome::Connected => if spawned {
            Ok(
                RecorderView {
                    host: host,
                    port: port,
                    callsign: callsign,
                    state: RunState::Running,
                    stop_requested: false,
                    joinable: true,
                },
            )
        } else {
            Err(RecordError::InternalError)
        },
        ConnectOutcome::Refused => Err(RecordError::ConnectionError),
        ConnectOutcome::TimedOut => Err(RecordError::ConnectionError),
    }
}

/// The state of a recorder after a stop was requested: the request stands,
/// and nothing else has changed.
pub open spec fn stop_requested_step(r: RecorderView) -> RecorderView {
    RecorderView { stop_requested: true, ..r }
}

/// The state of a recorder after its worker was seen to have ended.
pub open spec fn worker_exited_step(r: RecorderView) -> RecorderView {
    if r.state is Running {
        RecorderView { state: RunState::Stopped, ..r }
    } else {
        r
    }
}

/// What the worker left, as the caller of `join` gets it.
pub open spec fn recorded_exit(exit: WorkerExit) -> Result<(), RecordError> {
    match exit {
        WorkerExit::Returned(result) => finished(result),
        WorkerExit::Aborted => Err(RecordError::InternalError),
    }
}

/// The step of `join`: the result of the worker is handed out once, and a
/// recorder that was joined runs no longer.
pub open spec fn recorder_join_step(r: RecorderView, exit: WorkerExit) -> (
    RecorderView,
    Result<(), RecordError>,
) {
    if r.joinable {
        (RecorderView { state: RunState::Stopped, joinable: false, ..r }, recorded_exit(exit))
    } else {
        (r, Err(RecordError::AlreadyJoined))
    }
}

impl Recorder {
    /// Request the stop of the recorder.
    ///
    /// The request stands from then on: a second one changes nothing.
    pub fn request_stop(&mut self)
        ensures
            final(self)@ == stop_requested_step(old(self)@),
    {
        self.stop_requested = true;
    }

    /// Whether a stop was requested. The worker asks this after each read.
    pub fn stop_requested(&self) -> (requested: bool)
        ensures
            requested == self@.stop_requested,
    {
        self.stop_requested
    }

    /// Take note that the worker has ended.
    pub fn worker_exited(&mut self)
        ensures
            final(self)@ == worker_exited_step(old(self)@),
    {
        match self.state {
            RunState::Running => {
                self.state = RunState::Stopped;
            },
            _ => {},
        }
    }

    /// Join the recorder to get the result.
    ///
    /// `exit` tells how the wait for the worker ended. The result is handed
    /// out once: a second call fails and changes nothing.
    pub fn join(&mut self, exit: WorkerExit) -> (result: Result<(), RecordError>)
        ensures
            (final(self)@, result) == recorder_join_step(old(self)@, exit),
    {
        if self.joinable {
            self.joinable = false;
            self.state = RunState::Stopped;
            match exit {
                WorkerExit::Returned(result) => finish(result),
                WorkerExit::Aborted => Err(RecordError::InternalError),
            }
        } else {
            Err(RecordError::AlreadyJoined)
        }
    }

    /// Check if the recorder is running.
    pub fn is_running(&mut self) -> (running: bool)
        ensures
            running == (old(self)@.state is Running),
            final(self)@ == old(self)@,
    {
        match self.state {
            RunState::Running => true,
            _ => false,
        }
    }

    /// Whether the result of the worker can still be taken.
    pub fn can_join(&self) -> (joinable: bool)
        ensures
            joinable == self@.joinable,
    {
        self.joinable
    }

    /// The address that the worker connects to.
    pub fn address(&self) -> (text: String)
        ensures
            text@ == address_of(self@.host, self@.port),
    {
        address(self.host.as_str(), self.port)
    }

    /// The name of the thread that the worker runs as.
    pub fn name(&self) -> (text: String)
        ensures
            text@ == name_of(self@.callsign, self@.host, self@.port),
    {
        name(self.callsign.as_str(), self.host.as_str(), self.port)
    }
}

/// Record data from dx cluster.
///
/// ## Arguments
///
/// * `host`: Host of server
/// * `port`: Port of server
/// * `callsign`: Callsign to use for authentication
/// * `connect`: How the attempt to connect to the server ended
/// * `spawned`: Whether the thread of the worker could be started; it is
///   started only on an open connection
///
/// ## Result
///
/// The result shall be `Ok(Recorder)` if the recorder has been started.
/// An `Err(RecordError)` shall be returned in case something went wrong while initialization:
/// a failed connection is reported here, before any worker runs.
pub fn record(
    host: String,
    port: u16,
    callsign: String,
    connect: ConnectOutcome,
    spawned: bool,
) -> (result: Result<Recorder, RecordError>)
    ensures
        result is Ok <==> recording(host@, port, callsign@, connect, spawned) is Ok,
        result matches Ok(recorder) ==> Ok::<RecorderView, RecordError>(recorder@) == recording(
            host@,
            port,
            callsign@,
            connect,
            spawned,
        ),
        result matches Err(error) ==> Err::<RecorderView, RecordError>(error) == recording(
            host@,
            port,
            callsign@,
            connect,
            spawned,
        ),
{
    match connect {
        ConnectOutcome::Connected => {
            if spawned {
                Ok(
                    Recorder {
                        host,
                        port,
                        callsign,
                        state: RunState::Running,
                        stop_requested: false,
                        joinable: true,
                    },
                )
            } else {
                Err(RecordError::InternalError)
            }
        },
        ConnectOutcome::Refused => Err(RecordError::ConnectionError),
        ConnectOutcome::TimedOut => Err(RecordError::ConnectionError),
    }
}

} // verus!
