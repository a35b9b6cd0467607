//! The supervisor of one connection whose worker runs as a task, and the
//! errors that a connection can end with.

use vstd::prelude::*;

use crate::endpoint::{address, address_of, name, name_of};
use crate::worker::ConnectOutcome;

verus! {

/// Possible errors while listening
#[derive(Clone, Copy, Debug, PartialEq, Eq, Structural)]
pub enum ListenError {
    /// An I/O failure that fits no other variant.
    UnknownError,
    /// The server closed the connection.
    ConnectionLost,
    /// The connection could not be opened.
    ConnectionError,
    /// Opening the connection took longer than allowed.
    ConnectionTimeout,
    /// No prompt was seen before the retry budget ran out.
    AuthenticationError,
    /// The worker could not be started or was driven out of turn.
    InternalError,
    /// The result of the worker was already taken.
    AlreadyJoined,
    /// The receiver of the parsed spots is gone.
    ReceiverLost,
    /// A stop was already requested, or there is nothing to stop.
    ShutdownAlreadyRequested,
}

impl ListenError {
    /// The words that describe the error.
    pub open spec fn text(self) -> Seq<char> {
        match self {
            ListenError::UnknownError => "unknown error"@,
            ListenError::ConnectionLost => "connection to server lost"@,
            ListenError::ConnectionError => "failed to connect to server"@,
            ListenError::ConnectionTimeout => "timeout while connect to server"@,
            ListenError::AuthenticationError => "failed to authenticate at server"@,
            ListenError::InternalError => "internal error"@,
            ListenError::AlreadyJoined => "listener was already joined"@,
            ListenError::ReceiverLost => "receiver for parsed spots lost"@,
            ListenError::ShutdownAlreadyRequested => "shutdown was already requested"@,
        }
    }

    /// The words that describe the error, for a message to the user.
    pub fn message(&self) -> (m: &'static str)
        ensures
            m@ == self.text(),
    {
        match self {
            ListenError::UnknownError => "unknown error",
            ListenError::ConnectionLost => "connection to server lost",
            ListenError::ConnectionError => "failed to connect to server",
            ListenError::ConnectionTimeout => "timeout while connect to server",
            ListenError::AuthenticationError => "failed to authenticate at server",
            ListenError::InternalError => "internal error",
            ListenError::AlreadyJoined => "listener was already joined",
            ListenError::ReceiverLost => "receiver for parsed spots lost",
            ListenError::ShutdownAlreadyRequested => "shutdown was already requested",
        }
    }
}

/// Whether the worker of a listener runs.
#[derive(Clone, Copy, Debug, PartialEq, Eq, Structural)]
pub enum RunState {
    /// No worker was started yet.
    NotStarted,
    /// The worker was started and has not been seen to end.
    Running,
    /// The worker has ended.
    Stopped,
}

/// How the wait for the worker ended.
#[derive(Clone, Copy, Debug, PartialEq, Eq)]
pub enum WorkerExit {
    /// The worker ran to its end and left this result.
    Returned(Result<(), ListenError>),
    /// The worker was torn down before it could leave a result.
    Aborted,
}

/// The supervisor of one connection: the target and the callsign, whether
/// the worker runs, whether a stop can still be requested, and whether the
/// result of the worker can still be taken.
pub struct Listener {
    /// Host of the cluster server
    pub host: String,
    /// Port of the cluster server
    pub port: u16,
    /// Callsign to use for authentication
    pub callsign: String,
    state: RunState,
    stoppable: bool,
    joinable: bool,
}

/// The state of a `Listener`.
pub struct ListenerView {
    pub host: Seq<char>,
    pub port: u16,
    pub callsign: Seq<char>,
    pub state: RunState,
    pub stoppable: bool,
    pub joinable: bool,
}

impl View for Listener {
    type V = ListenerView;

    closed spec fn view(&self) -> ListenerView {
        ListenerView {
            host: self.host@,
            port: self.port,
            callsign: self.callsign@,
            state: self.state,
            stoppable: self.stoppable,
            joinable: self.joinable,
        }
    }
}

/// What the worker left, as the caller of `join` gets it.
pub open spec fn exit_result(exit: WorkerExit) -> Result<(), ListenError> {
    match exit {
        WorkerExit::Returned(result) => result,
        WorkerExit::Aborted => Err(ListenError::InternalError),
    }
}

/// The step of `listen`: a listener that connected runs its worker, can be
/// stopped and can be joined; one that did not is as before.
pub open spec fn listen_step(l: ListenerView, outcome: ConnectOutcome) -> (
    ListenerView,
    Result<(), ListenError>,
) {
    match outcome {
        ConnectOutcome::Connected => (
            ListenerView { state: RunState::Running, stoppable: true, joinable: true, ..l },
            Ok(()),
        ),
        ConnectOutcome::Refused => (l, Err(ListenError::ConnectionError)),
        ConnectOutcome::TimedOut => (l, Err(ListenError::ConnectionTimeout)),
    }
}

/// The step of `request_stop`: the one signal that a listener has is spent
/// on the first request, whether or not it reached the worker.
pub open spec fn stop_request_step(l: ListenerView, delivered: bool) -> (
    ListenerView,
    Result<(), ListenError>,
) {
    if !l.stoppable {
        (l, Err(ListenError::ShutdownAlreadyRequested))
    } else if delivered {
        (ListenerView { stoppable: false, ..l }, Ok(()))
    } else {
        (ListenerView { stoppable: false, ..l }, Err(ListenError::InternalError))
    }
}

/// The step of `join`: the result of the worker is handed out once.
pub open spec fn join_step(l: ListenerView, exit: WorkerExit) -> (
    ListenerView,
    Result<(), ListenError>,
) {
    if l.joinable {
        (ListenerView { state: RunState::Stopped, joinable: false, ..l }, exit_result(exit))
    } else {
        (l, Err(ListenError::AlreadyJoined))
    }
}

/// The state of a listener after its worker was seen to have ended.
pub open spec fn exited_step(l: ListenerView) -> ListenerView {
    if l.state is Running {
        ListenerView { state: RunState::Stopped, ..l }
    } else {
        l
    }
}

impl Listener {
    /// Create new instance of `Listener`.
    ///
    /// # Arguments
    ///
    /// * `host`: Host of server
    /// * `port`: Port of server
    /// * `callsign`: Callsign to use for authentication
    ///
    /// # Result
    ///
    /// Returns a new instance of a `Listener`.
    pub fn new(host: String, port: u16, callsign: String) -> (listener: Listener)
        ensures
            listener@ == (ListenerView {
                host: host@,
                port: port,
                callsign: callsign@,
                state: RunState::NotStarted,
                stoppable: false,
                joinable: false,
            }),
    {
        Listener {
            host,
            port,
            callsign,
            state: RunState::NotStarted,
            stoppable: false,
            joinable: false,
        }
    }

    /// The address that the worker connects to.
    pub fn address(&self) -> (text: String)
        ensures
            text@ == address_of(self@.host, self@.port),
    {
        address(self.host.as_str(), self.port)
    }

    /// The name of the listener, as it is shown to a user.
    pub fn name(&self) -> (text: String)
        ensures
            text@ == name_of(self@.callsign, self@.host, self@.port),
    {
        name(self.callsign.as_str(), self.host.as_str(), self.port)
    }

    /// Listen for data from dx cluster.
    ///
    /// # Arguments
    ///
    /// * `outcome`: How the attempt to connect to the server ended
    ///
    /// # Result
    ///
    /// The result shall be `Ok(())` if the listener is connected and is waiting for spots.
    /// An `Err(ListenError)` shall be returned in case something went wrong while connecting.
    ///
    /// A listener serves one connection: it can be started once.
    pub fn listen(&mut self, outcome: ConnectOutcome) -> (result: Result<(), ListenError>)
        requires
            old(self)@.state is NotStarted,
        ensures
            (final(self)@, result) == listen_step(old(self)@, outcome),
    {
        match outcome {
            ConnectOutcome::Connected => {
                self.state = RunState::Running;
                self.stoppable = true;
                self.joinable = true;
                Ok(())
            },
            ConnectOutcome::Refused => Err(ListenError::ConnectionError),
            ConnectOutcome::TimedOut => Err(ListenError::ConnectionTimeout),
        }
    }

    /// Request the stop of the listener
    ///
    /// `delivered` tells whether the worker was still there to take the
    /// signal. A second request, and one before the listener was started, is
    /// refused.
    pub fn request_stop(&mut self, delivered: bool) -> (result: Result<(), ListenError>)
        ensures
            (final(self)@, result) == stop_request_step(old(self)@, delivered),
    {
        if !self.stoppable {
            Err(ListenError::ShutdownAlreadyRequested)
        } else {
            self.stoppable = false;
            if delivered {
                Ok(())
            } else {
                Err(ListenError::InternalError)
            }
        }
    }

    /// Join the listener to get the result
    ///
    /// `exit` tells how the wait for the worker ended. The result is handed
    /// out once: a second call, and one before the listener was started,
    /// fails.
    pub fn join(&mut self, exit: WorkerExit) -> (result: Result<(), ListenError>)
        ensures
            (final(self)@, result) == join_step(old(self)@, exit),
    {
        if self.joinable {
            self.joinable = false;
            self.state = RunState::Stopped;
            match exit {
                WorkerExit::Returned(result) => result,
                WorkerExit::Aborted => Err(ListenError::InternalError),
            }
        } else {
            Err(ListenError::AlreadyJoined)
        }
    }

    /// Take note that the worker has ended.
    pub fn worker_exited(&mut self)
        ensures
            final(self)@ == exited_step(old(self)@),
    {
        match self.state {
            RunState::Running => {
                self.state = RunState::Stopped;
            },
            _ => {},
        }
    }

    /// Check if the listener is running
    pub fn is_running(&self) -> (running: bool)
        ensures
            running == (self@.state is Running),
    {
        match self.state {
            RunState::Running => true,
            _ => false,
        }
    }

    /// Whether a stop can still be requested.
    pub fn can_stop(&self) -> (stoppable: bool)
        ensures
            stoppable == self@.stoppable,
    {
        self.stoppable
    }

    /// Whether the result of the worker can still be taken.
    pub fn can_join(&self) -> (joinable: bool)
        ensures
            joinable == self@.joinable,
    {
        self.joinable
    }

    /// Whether the listener was started, is running or has stopped.
    pub fn state(&self) -> (state: RunState)
        ensures
            state == self@.state,
    {
        self.state
    }
}

} // verus!
