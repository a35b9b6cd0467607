//! The worker of one connection: a state machine that is told what happened
//! on the socket and answers with what to do next.
//!
//! The worker performs no I/O. Whoever drives it connects, reads, writes and
//! delivers, and reports each outcome by one call; the answer is the next
//! thing to do. A worker moves from connecting through authenticating to
//! streaming, and ends stopped or failed.

use vstd::prelude::*;

use crate::line::{
    clean_line,
    cleaned,
    ends_with_prompt,
    is_auth_token,
    line_end,
    strip_line_end,
    terminated,
    without_line_end,
};
use crate::listener::ListenError;

verus! {

/// A spot as `dxclparser` represents it. The worker hands it on unread.
#[verifier::external_type_specification]
#[verifier::external_body]
pub struct ExSpot(dxclparser::Spot);

/// The reason for which `dxclparser` rejects a line.
#[verifier::external_type_specification]
#[verifier::external_body]
pub struct ExParseError(dxclparser::ParseError);

/// What `dxclparser::parse` makes of a cleaned line.
pub uninterp spec fn parsed(raw: Seq<char>) -> Result<dxclparser::Spot, dxclparser::ParseError>;

/// `dxclparser::parse` matches the line against the formats of the known
/// kinds of spot. It reads nothing but its argument, so equal lines give
/// equal results, and it returns for every line.
pub assume_specification[ dxclparser::parse ](raw: &str) -> (spot: Result<
    dxclparser::Spot,
    dxclparser::ParseError,
>)
    ensures
        spot == parsed(raw@),
;

/// The number of timeouts in a row after which authentication is given up.
pub const RETRY_BUDGET: u32 = 10;

/// Where a worker stands in the life of its connection.
#[derive(Clone, Copy, Debug, PartialEq, Eq, Structural)]
pub enum Phase {
    /// The socket is not open yet.
    Connecting,
    /// Waiting for the server to ask for the callsign.
    Authenticating,
    /// The callsign was sent; every line is a candidate spot.
    Streaming,
    /// Ended because a stop was requested.
    Stopped,
    /// Ended with an error.
    Failed(ListenError),
}

/// How an attempt to open the socket ended.
#[derive(Clone, Copy, Debug, PartialEq, Eq, Structural)]
pub enum ConnectOutcome {
    /// The socket is open.
    Connected,
    /// The server could not be reached.
    Refused,
    /// The attempt took longer than allowed.
    TimedOut,
}

/// How one bounded read of a line ended.
#[derive(Debug, PartialEq, Eq)]
pub enum ReadOutcome {
    /// The read returned; the text is what it added to the pending line and
    /// ends that line.
    Line(String),
    /// Time ran out; the text is what arrived before, possibly nothing.
    Timeout(String),
    /// The server closed the connection.
    Closed,
    /// The read failed for another reason.
    Failed,
}

/// A `ReadOutcome` with its text as a sequence of characters.
pub enum ReadOutcomeView {
    Line(Seq<char>),
    Timeout(Seq<char>),
    Closed,
    Failed,
}

impl View for ReadOutcome {
    type V = ReadOutcomeView;

    open spec fn view(&self) -> ReadOutcomeView {
        match self {
            ReadOutcome::Line(text) => ReadOutcomeView::Line(text@),
            ReadOutcome::Timeout(text) => ReadOutcomeView::Timeout(text@),
            ReadOutcome::Closed => ReadOutcomeView::Closed,
            ReadOutcome::Failed => ReadOutcomeView::Failed,
        }
    }
}

/// Why a read returned no count of bytes.
#[derive(Clone, Copy, Debug, PartialEq, Eq, Structural)]
pub enum ReadFailure {
    /// Time ran out before the line was complete.
    TimedOut,
    /// Anything else.
    Other,
}

/// What a read amounts to, from the count of bytes it returned or the reason
/// why it returned none, and from the text it added to the pending line.
pub open spec fn read_outcome(count: Result<usize, ReadFailure>, text: Seq<char>) -> ReadOutcomeView {
    match count {
        Ok(n) => if n == 0 {
            ReadOutcomeView::Closed
        } else {
            ReadOutcomeView::Line(text)
        },
        Err(ReadFailure::TimedOut) => ReadOutcomeView::Timeout(text),
        Err(ReadFailure::Other) => ReadOutcomeView::Failed,
    }
}

/// Check result from read function against possible errors.
///
/// A read of no bytes is the end of the connection, a read that ran out of
/// time keeps what it got, and any other failure is final.
pub fn check_read_result(count: Result<usize, ReadFailure>, text: String) -> (outcome: ReadOutcome)
    ensures
        outcome@ == read_outcome(count, text@),
{
    match count {
        Ok(n) => {
            if n == 0 {
                ReadOutcome::Closed
            } else {
                ReadOutcome::Line(text)
            }
        },
        Err(ReadFailure::TimedOut) => ReadOutcome::Timeout(text),
        Err(ReadFailure::Other) => ReadOutcome::Failed,
    }
}

/// How the write of the callsign ended.
#[derive(Clone, Copy, Debug, PartialEq, Eq, Structural)]
pub enum WriteOutcome {
    /// The socket took this many bytes.
    Accepted(usize),
    /// The write failed.
    Failed,
}

/// What happened since the worker was last asked.
#[derive(Debug, PartialEq, Eq)]
pub enum Event {
    /// The attempt to connect ended.
    Connect(ConnectOutcome),
    /// A bounded read ended; `stop` tells whether a stop had been requested
    /// by then.
    Read { stop: bool, outcome: ReadOutcome },
    /// The write of the callsign ended.
    Sent(WriteOutcome),
    /// The sink was handed a spot and took it, or not.
    Delivered(bool),
    /// The wait for a stop signal ended: with the signal, or because nobody
    /// is left to give it.
    Stop(bool),
}

/// An `Event` with its text as a sequence of characters.
pub enum EventView {
    Connect(ConnectOutcome),
    Read { stop: bool, outcome: ReadOutcomeView },
    Sent(WriteOutcome),
    Delivered(bool),
    Stop(bool),
}

impl View for Event {
    type V = EventView;

    open spec fn view(&self) -> EventView {
        match self {
            Event::Connect(outcome) => EventView::Connect(*outcome),
            Event::Read { stop, outcome } => EventView::Read { stop: *stop, outcome: outcome@ },
            Event::Sent(outcome) => EventView::Sent(*outcome),
            Event::Delivered(accepted) => EventView::Delivered(*accepted),
            Event::Stop(requested) => EventView::Stop(*requested),
        }
    }
}

/// What the worker asks its driver to do next.
#[derive(Debug, PartialEq, Eq)]
pub enum Action {
    /// Open the socket and report how that went.
    Connect,
    /// Read the next line, for at most one poll interval.
    Read,
    /// Write this text to the socket and report how that went.
    Send(String),
    /// Hand this spot to the sink and report whether it was taken.
    Deliver(dxclparser::Spot),
    /// The worker has ended with this result; there is nothing left to do.
    Finish(Result<(), ListenError>),
}

/// An `Action` with its text as a sequence of characters.
pub enum ActionView {
    Connect,
    Read,
    Send(Seq<char>),
    Deliver(dxclparser::Spot),
    Finish(Result<(), ListenError>),
}

impl View for Action {
    type V = ActionView;

    open spec fn view(&self) -> ActionView {
        match self {
            Action::Connect => ActionView::Connect,
            Action::Read => ActionView::Read,
            Action::Send(text) => ActionView::Send(text@),
            Action::Deliver(spot) => ActionView::Deliver(*spot),
            Action::Finish(result) => ActionView::Finish(*result),
        }
    }
}

/// The state of a worker: the callsign it logs in with, its phase, the
/// timeouts it may still spend on authentication, and the text of the line
/// that is not complete yet.
pub struct WorkerView {
    pub callsign: Seq<char>,
    pub phase: Phase,
    pub retries: nat,
    pub buffer: Seq<char>,
}

/// Whether a phase is one of the two in which a worker has ended.
pub open spec fn is_terminal(phase: Phase) -> bool {
    phase is Stopped || phase is Failed
}

/// The result of a worker that has ended in `phase`; of one that has not,
/// nothing.
pub open spec fn result_of(phase: Phase) -> Option<Result<(), ListenError>> {
    match phase {
        Phase::Stopped => Some(Ok(())),
        Phase::Failed(error) => Some(Err(error)),
        _ => None,
    }
}

/// What a worker in state `s` asks for when the event at hand calls for
/// nothing in particular.
pub open spec fn waiting(s: WorkerView) -> ActionView {
    match s.phase {
        Phase::Connecting => ActionView::Connect,
        Phase::Authenticating => ActionView::Read,
        Phase::Streaming => ActionView::Read,
        Phase::Stopped => ActionView::Finish(Ok(())),
        Phase::Failed(error) => ActionView::Finish(Err(error)),
    }
}

/// The state `s` after the worker has failed with `error`, and the answer that
/// says so.
pub open spec fn failed(s: WorkerView, error: ListenError) -> (WorkerView, ActionView) {
    (WorkerView { phase: Phase::Failed(error), ..s }, ActionView::Finish(Err(error)))
}

/// The state `s` after the worker has seen a stop request, and the answer that
/// says so.
pub open spec fn stopped(s: WorkerView) -> (WorkerView, ActionView) {
    (WorkerView { phase: Phase::Stopped, ..s }, ActionView::Finish(Ok(())))
}

/// Whether what was read so far ends with a prompt. The text is matched as
/// it was read; only of a complete line the line end is left aside, so that
/// a prompt which the server ends its line with is seen.
pub open spec fn prompt_seen(buffer: Seq<char>, complete: bool) -> bool {
    if complete {
        ends_with_prompt(without_line_end(buffer))
    } else {
        ends_with_prompt(buffer)
    }
}

/// What becomes of the result of the parser: a spot goes to the sink, a line
/// that is no spot is dropped and the next one read.
pub open spec fn forwarded(spot: Result<dxclparser::Spot, dxclparser::ParseError>) -> ActionView {
    match spot {
        Ok(spot) => ActionView::Deliver(spot),
        Err(_) => ActionView::Read,
    }
}

/// The step on the end of an attempt to connect.
pub open spec fn connect_step(s: WorkerView, outcome: ConnectOutcome) -> (WorkerView, ActionView) {
    if !(s.phase is Connecting) {
        (s, waiting(s))
    } else {
        match outcome {
            ConnectOutcome::Connected => (
                WorkerView {
                    phase: Phase::Authenticating,
                    retries: RETRY_BUDGET as nat,
                    buffer: Seq::empty(),
                    ..s
                },
                ActionView::Read,
            ),
            ConnectOutcome::Refused => failed(s, ListenError::ConnectionError),
            ConnectOutcome::TimedOut => failed(s, ListenError::ConnectionTimeout),
        }
    }
}

/// The step of an authenticating worker on text that arrived: `complete` tells
/// whether the read returned with it or ran out of time.
pub open spec fn auth_step(s: WorkerView, text: Seq<char>, complete: bool) -> (
    WorkerView,
    ActionView,
) {
    let buffer = s.buffer + text;
    if prompt_seen(buffer, complete) {
        (
            WorkerView { phase: Phase::Streaming, buffer: Seq::empty(), ..s },
            ActionView::Send(s.callsign + line_end()),
        )
    } else if complete {
        (WorkerView { retries: RETRY_BUDGET as nat, buffer: Seq::empty(), ..s }, ActionView::Read)
    } else if s.retries <= 1 {
        failed(WorkerView { buffer: buffer, ..s }, ListenError::AuthenticationError)
    } else {
        (WorkerView { retries: (s.retries - 1) as nat, buffer: buffer, ..s }, ActionView::Read)
    }
}

/// The step of a streaming worker on text that arrived.
pub open spec fn stream_step(s: WorkerView, text: Seq<char>, complete: bool) -> (
    WorkerView,
    ActionView,
) {
    let buffer = s.buffer + text;
    if complete {
        (WorkerView { buffer: Seq::empty(), ..s }, forwarded(parsed(cleaned(buffer))))
    } else {
        (WorkerView { buffer: buffer, ..s }, ActionView::Read)
    }
}

/// The step on the end of a bounded read. The end of the connection and a
/// failed read end the worker whatever else holds; of the rest, a stop
/// request comes before the text.
pub open spec fn read_step(s: WorkerView, stop: bool, outcome: ReadOutcomeView) -> (
    WorkerView,
    ActionView,
) {
    if !(s.phase is Authenticating || s.phase is Streaming) {
        (s, waiting(s))
    } else {
        match outcome {
            ReadOutcomeView::Closed => failed(s, ListenError::ConnectionLost),
            ReadOutcomeView::Failed => failed(s, ListenError::UnknownError),
            ReadOutcomeView::Line(text) => if stop {
                stopped(s)
            } else if s.phase is Authenticating {
                auth_step(s, text, true)
            } else {
                stream_step(s, text, true)
            },
            ReadOutcomeView::Timeout(text) => if stop {
                stopped(s)
            } else if s.phase is Authenticating {
                auth_step(s, text, false)
            } else {
                stream_step(s, text, false)
            },
        }
    }
}

/// The step on the end of the write of the callsign.
pub open spec fn sent_step(s: WorkerView, outcome: WriteOutcome) -> (WorkerView, ActionView) {
    if !(s.phase is Authenticating || s.phase is Streaming) {
        (s, waiting(s))
    } else {
        match outcome {
            WriteOutcome::Accepted(n) => if n == 0 {
                failed(s, ListenError::ConnectionLost)
            } else {
                (s, ActionView::Read)
            },
            WriteOutcome::Failed => failed(s, ListenError::UnknownError),
        }
    }
}

/// The step on the answer of the sink.
pub open spec fn delivered_step(s: WorkerView, accepted: bool) -> (WorkerView, ActionView) {
    if !(s.phase is Authenticating || s.phase is Streaming) {
        (s, waiting(s))
    } else if accepted {
        (s, ActionView::Read)
    } else {
        failed(s, ListenError::ReceiverLost)
    }
}

/// The step on the end of the wait for a stop signal.
pub open spec fn stop_step(s: WorkerView, requested: bool) -> (WorkerView, ActionView) {
    if is_terminal(s.phase) {
        (s, waiting(s))
    } else if requested {
        stopped(s)
    } else {
        failed(s, ListenError::InternalError)
    }
}

/// The step of a worker: from its state and what happened to its next state
/// and what to do.
pub open spec fn step(s: WorkerView, event: EventView) -> (WorkerView, ActionView) {
    match event {
        EventView::Connect(outcome) => connect_step(s, outcome),
        EventView::Read { stop, outcome } => read_step(s, stop, outcome),
        EventView::Sent(outcome) => sent_step(s, outcome),
        EventView::Delivered(accepted) => delivered_step(s, accepted),
        EventView::Stop(requested) => stop_step(s, requested),
    }
}

/// The worker of one connection.
pub struct Worker {
    callsign: String,
    phase: Phase,
    retries: u32,
    buffer: String,
}

impl View for Worker {
    type V = WorkerView;

    closed spec fn view(&self) -> WorkerView {
        WorkerView {
            callsign: self.callsign@,
            phase: self.phase,
            retries: self.retries as nat,
            buffer: self.buffer@,
        }
    }
}

/// What to do with the result of the parser: deliver a spot, drop anything
/// else and read on.
pub fn forward(spot: Result<dxclparser::Spot, dxclparser::ParseError>) -> (action: Action)
    ensures
        action@ == forwarded(spot),
{
    match spot {
        Ok(spot) => Action::Deliver(spot),
        Err(_) => Action::Read,
    }
}

impl Worker {
    /// A worker that will log in with `callsign`. It has not connected yet.
    pub fn new(callsign: String) -> (worker: Worker)
        ensures
            worker@ == (WorkerView {
                callsign: callsign@,
                phase: Phase::Connecting,
                retries: RETRY_BUDGET as nat,
                buffer: Seq::empty(),
            }),
    {
        Worker { callsign, phase: Phase::Connecting, retries: RETRY_BUDGET, buffer: String::new() }
    }

    /// The phase that the worker is in.
    pub fn phase(&self) -> (phase: Phase)
        ensures
            phase == self@.phase,
    {
        self.phase
    }

    /// The result of the worker, once it has ended.
    pub fn result(&self) -> (result: Option<Result<(), ListenError>>)
        ensures
            result == result_of(self@.phase),
    {
        match self.phase {
            Phase::Stopped => Some(Ok(())),
            Phase::Failed(error) => Some(Err(error)),
            _ => None,
        }
    }

    /// What the worker asks for when nothing in particular is due.
    fn wait(&self) -> (action: Action)
        ensures
            action@ == waiting(self@),
    {
        match self.phase {
            Phase::Connecting => Action::Connect,
            Phase::Authenticating => Action::Read,
            Phase::Streaming => Action::Read,
            Phase::Stopped => Action::Finish(Ok(())),
            Phase::Failed(error) => Action::Finish(Err(error)),
        }
    }

    /// End the worker with `error`.
    fn fail(&mut self, error: ListenError) -> (action: Action)
        ensures
            (final(self)@, action@) == failed(old(self)@, error),
    {
        self.phase = Phase::Failed(error);
        Action::Finish(Err(error))
    }

    /// End the worker on a stop request.
    fn stop(&mut self) -> (action: Action)
        ensures
            (final(self)@, action@) == stopped(old(self)@),
    {
        self.phase = Phase::Stopped;
        Action::Finish(Ok(()))
    }

    /// Whether the worker is authenticating or streaming.
    fn is_reading(&self) -> (reading: bool)
        ensures
            reading == (self@.phase is Authenticating || self@.phase is Streaming),
    {
        match self.phase {
            Phase::Authenticating => true,
            Phase::Streaming => true,
            _ => false,
        }
    }

    /// Report how the attempt to connect ended.
    pub fn on_connect(&mut self, outcome: ConnectOutcome) -> (action: Action)
        ensures
            (final(self)@, action@) == connect_step(old(self)@, outcome),
    {
        match self.phase {
            Phase::Connecting => match outcome {
                ConnectOutcome::Connected => {
                    self.phase = Phase::Authenticating;
                    self.retries = RETRY_BUDGET;
                    self.buffer = String::new();
                    Action::Read
                },
                ConnectOutcome::Refused => self.fail(ListenError::ConnectionError),
                ConnectOutcome::TimedOut => self.fail(ListenError::ConnectionTimeout),
            },
            _ => self.wait(),
        }
    }

    /// Take in text that arrived while authenticating.
    fn authenticate(&mut self, text: &str, complete: bool) -> (action: Action)
        ensures
            (final(self)@, action@) == auth_step(old(self)@, text@, complete),
    {
        self.buffer.append(text);
        let seen = if complete {
            is_auth_token(strip_line_end(self.buffer.as_str()))
        } else {
            is_auth_token(self.buffer.as_str())
        };
        if seen {
            self.phase = Phase::Streaming;
            self.buffer = String::new();
            Action::Send(terminated(self.callsign.as_str()))
        } else if complete {
            self.retries = RETRY_BUDGET;
            self.buffer = String::new();
            Action::Read
        } else if self.retries <= 1 {
            self.fail(ListenError::AuthenticationError)
        } else {
            self.retries = self.retries - 1;
            Action::Read
        }
    }

    /// Take in text that arrived while streaming.
    fn stream(&mut self, text: &str, complete: bool) -> (action: Action)
        ensures
            (final(self)@, action@) == stream_step(old(self)@, text@, complete),
    {
        self.buffer.append(text);
        if complete {
            let spot = dxclparser::parse(clean_line(self.buffer.as_str()));
            self.buffer = String::new();
            forward(spot)
        } else {
            Action::Read
        }
    }

    /// Take in text that arrived, in the phase that the worker is in.
    fn take(&mut self, stop: bool, text: &str, complete: bool) -> (action: Action)
        requires
            old(self)@.phase is Authenticating || old(self)@.phase is Streaming,
        ensures
            (final(self)@, action@) == (if stop {
                stopped(old(self)@)
            } else if old(self)@.phase is Authenticating {
                auth_step(old(self)@, text@, complete)
            } else {
                stream_step(old(self)@, text@, complete)
            }),
    {
        if stop {
            self.stop()
        } else {
            match self.phase {
                Phase::Authenticating => self.authenticate(text, complete),
                _ => self.stream(text, complete),
            }
        }
    }

    /// Report how a bounded read ended, and whether a stop had been requested
    /// when it did.
    pub fn on_read(&mut self, stop: bool, outcome: ReadOutcome) -> (action: Action)
        ensures
            (final(self)@, action@) == read_step(old(self)@, stop, outcome@),
    {
        if !self.is_reading() {
            return self.wait();
        }
        match outcome {
            ReadOutcome::Closed => self.fail(ListenError::ConnectionLost),
            ReadOutcome::Failed => self.fail(ListenError::UnknownError),
            ReadOutcome::Line(text) => self.take(stop, text.as_str(), true),
            ReadOutcome::Timeout(text) => self.take(stop, text.as_str(), false),
        }
    }

    /// Report how the write of the callsign ended.
    pub fn on_sent(&mut self, outcome: WriteOutcome) -> (action: Action)
        ensures
            (final(self)@, action@) == sent_step(old(self)@, outcome),
    {
        if !self.is_reading() {
            return self.wait();
        }
        match outcome {
            WriteOutcome::Accepted(n) => {
                if n == 0 {
                    self.fail(ListenError::ConnectionLost)
                } else {
                    Action::Read
                }
            },
            WriteOutcome::Failed => self.fail(ListenError::UnknownError),
        }
    }

    /// Report whether the sink took the spot it was handed.
    pub fn on_delivered(&mut self, accepted: bool) -> (action: Action)
        ensures
            (final(self)@, action@) == delivered_step(old(self)@, accepted),
    {
        if !self.is_reading() {
            self.wait()
        } else if accepted {
            Action::Read
        } else {
            self.fail(ListenError::ReceiverLost)
        }
    }

    /// Report that the wait for a stop signal ended: `requested` tells whether
    /// the signal came, or the one who could give it is gone.
    pub fn on_stop(&mut self, requested: bool) -> (action: Action)
        ensures
            (final(self)@, action@) == stop_step(old(self)@, requested),
    {
        match self.phase {
            Phase::Stopped => self.wait(),
            Phase::Failed(_) => self.wait(),
            _ => {
                if requested {
                    self.stop()
                } else {
                    self.fail(ListenError::InternalError)
                }
            },
        }
    }

    /// Report what happened and learn what to do next.
    pub fn handle(&mut self, event: Event) -> (action: Action)
        ensures
            (final(self)@, action@) == step(old(self)@, event@),
    {
        match event {
            Event::Connect(outcome) => self.on_connect(outcome),
            Event::Read { stop, outcome } => self.on_read(stop, outcome),
            Event::Sent(outcome) => self.on_sent(outcome),
            Event::Delivered(accepted) => self.on_delivered(accepted),
            Event::Stop(requested) => self.on_stop(requested),
        }
    }
}

} // verus!
