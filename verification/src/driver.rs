//! The connection driver: one client connection, one request, one response.
//!
//! The driver is a state machine. Its state says which operation is pending;
//! [`Driver::step`] takes the outcome of that operation and moves on. One
//! round of the loop waits for the socket or the timer, drains the inbound
//! datagrams into the engine, submits the request once the handshake is
//! complete, reads every readable stream until it is dry, and drains the
//! engine's outgoing datagrams into the socket. The loop ends when the engine
//! reports the connection closed.

use crate::event::{Action, CloseCause, Event, Failure, Timeout};
use crate::exchange::{
    encode_request, request_for, request_line, response_text, url_path, DecodeError,
};
use crate::invariants::lemma_next_valid;
use crate::settings::{HTTP_REQ_STREAM_ID, MAX_DATAGRAM_SIZE, RECEIVE_BUFFER_SIZE};
use vstd::prelude::*;
use vstd::utf8::*;

verus! {

/// Where a connection stands, as far as the driver has seen.
#[derive(Clone, Copy, Debug, PartialEq, Eq, Structural)]
pub enum Lifecycle {
    Handshaking,
    Established,
    Closing,
    Closed,
}

impl Lifecycle {
    /// The position of a stage in the order in which a connection passes
    /// through them.
    pub open spec fn rank(self) -> nat {
        match self {
            Lifecycle::Handshaking => 0,
            Lifecycle::Established => 1,
            Lifecycle::Closing => 2,
            Lifecycle::Closed => 3,
        }
    }

    /// The stage after a local request to close: a connection that is not
    /// yet closing starts to close, any other stays as it is.
    pub open spec fn closing(self) -> Lifecycle {
        match self {
            Lifecycle::Handshaking | Lifecycle::Established => Lifecycle::Closing,
            Lifecycle::Closing => Lifecycle::Closing,
            Lifecycle::Closed => Lifecycle::Closed,
        }
    }
}

/// The operation whose outcome the driver is waiting for.
#[derive(Clone, Copy, Debug, PartialEq, Eq, Structural)]
pub enum Phase {
    /// The engine is asked for the datagram that opens the handshake.
    FirstFlight,
    /// The opening datagram of `len` bytes is offered to the socket.
    FirstTransmit { len: usize },
    /// The engine is asked for its timeout.
    Scheduling,
    /// The notifier waits for the socket or the timeout.
    Waiting { timeout: Option<Timeout> },
    /// The engine handles its timeout.
    TimingOut,
    /// The socket is asked for the next datagram.
    Receiving,
    /// A datagram of `len` bytes is handed to the engine.
    Feeding { len: usize },
    /// The engine is asked whether the connection is closed, after the
    /// inbound datagrams were drained.
    AfterDrain,
    /// The engine is asked whether the handshake is complete.
    Probing,
    /// The request is handed to the engine.
    Submitting,
    /// The engine is asked for the readable streams.
    Listing,
    /// `stream` is read.
    Reading { stream: u64 },
    /// The engine is asked to close after the response ended on `stream`.
    Completing { stream: u64 },
    /// The engine is asked for its next outgoing datagram.
    Producing,
    /// A datagram of `len` bytes is offered to the socket.
    Transmitting { len: usize },
    /// The engine is asked to close after it failed to produce a datagram.
    Bailing,
    /// The engine is asked whether the connection is closed, after the
    /// outgoing datagrams were drained.
    AfterFlush,
    /// The connection is closed.
    Finished,
    /// The driver gave up.
    Failed { failure: Failure },
}

impl Phase {
    /// The operation that is pending in a phase.
    pub open spec fn pending(self) -> Action {
        match self {
            Phase::FirstFlight => Action::Produce,
            Phase::FirstTransmit { len } => Action::Transmit { len },
            Phase::Scheduling => Action::QueryTimeout,
            Phase::Waiting { timeout } => Action::Wait { timeout },
            Phase::TimingOut => Action::FireTimeout,
            Phase::Receiving => Action::Receive,
            Phase::Feeding { len } => Action::Feed { len },
            Phase::AfterDrain => Action::QueryClosed,
            Phase::Probing => Action::QueryEstablished,
            Phase::Submitting => Action::SubmitRequest { stream: HTTP_REQ_STREAM_ID, fin: true },
            Phase::Listing => Action::ListReadable,
            Phase::Reading { stream } => Action::ReadStream { stream },
            Phase::Completing { stream } => Action::Close { cause: CloseCause::ResponseReceived },
            Phase::Producing => Action::Produce,
            Phase::Transmitting { len } => Action::Transmit { len },
            Phase::Bailing => Action::Close { cause: CloseCause::SendFailed },
            Phase::AfterFlush => Action::QueryClosed,
            Phase::Finished => Action::Finish,
            Phase::Failed { failure } => Action::Abort { failure },
        }
    }

    /// The operation that is pending in this phase.
    pub fn action(&self) -> (action: Action)
        ensures
            action == self.pending(),
    {
        match *self {
            Phase::FirstFlight => Action::Produce,
            Phase::FirstTransmit { len } => Action::Transmit { len },
            Phase::Scheduling => Action::QueryTimeout,
            Phase::Waiting { timeout } => Action::Wait { timeout },
            Phase::TimingOut => Action::FireTimeout,
            Phase::Receiving => Action::Receive,
            Phase::Feeding { len } => Action::Feed { len },
            Phase::AfterDrain => Action::QueryClosed,
            Phase::Probing => Action::QueryEstablished,
            Phase::Submitting => Action::SubmitRequest { stream: HTTP_REQ_STREAM_ID, fin: true },
            Phase::Listing => Action::ListReadable,
            Phase::Reading { stream } => Action::ReadStream { stream },
            Phase::Completing { stream: _ } => Action::Close { cause: CloseCause::ResponseReceived },
            Phase::Producing => Action::Produce,
            Phase::Transmitting { len } => Action::Transmit { len },
            Phase::Bailing => Action::Close { cause: CloseCause::SendFailed },
            Phase::AfterFlush => Action::QueryClosed,
            Phase::Finished => Action::Finish,
            Phase::Failed { failure } => Action::Abort { failure },
        }
    }
}

/// The state of a driver.
#[verifier::ext_equal]
pub struct DriverState {
    /// The operation that is pending.
    pub phase: Phase,
    /// Whether the engine ever reported the handshake complete.
    pub established_seen: bool,
    /// Whether the engine was asked to close.
    pub close_requested: bool,
    /// Whether the engine reported the connection closed.
    pub closed: bool,
    /// Whether the request was handed to the engine.
    pub request_sent: bool,
    /// The bytes read from the streams so far, in the order they were read.
    pub response: Seq<u8>,
    /// Whether the peer finished the exchange stream.
    pub response_complete: bool,
    /// Whether the exchange stream delivered bytes after it was finished.
    pub violation: bool,
    /// The readable streams that wait to be read after the current one.
    pub streams: Seq<u64>,
}

impl DriverState {
    /// The state of a driver that has done nothing yet.
    pub open spec fn initial() -> DriverState {
        DriverState {
            phase: Phase::FirstFlight,
            established_seen: false,
            close_requested: false,
            closed: false,
            request_sent: false,
            response: Seq::empty(),
            response_complete: false,
            violation: false,
            streams: Seq::empty(),
        }
    }

    /// The same state in another phase.
    pub open spec fn enter(self, phase: Phase) -> DriverState {
        DriverState { phase, ..self }
    }

    /// The same state, given up for `failure`.
    pub open spec fn fail(self, failure: Failure) -> DriverState {
        self.enter(Phase::Failed { failure })
    }

    /// The stage of the connection that the observations so far amount to.
    pub open spec fn lifecycle(self) -> Lifecycle {
        if self.closed {
            Lifecycle::Closed
        } else if self.close_requested {
            Lifecycle::Closing
        } else if self.established_seen {
            Lifecycle::Established
        } else {
            Lifecycle::Handshaking
        }
    }

    /// The states that a driver can be in.
    pub open spec fn valid(self) -> bool {
        &&& self.phase is Finished <==> self.closed
        &&& self.request_sent ==> self.established_seen
        &&& self.phase is Submitting ==> self.request_sent
        &&& self.response_complete ==> self.close_requested
        &&& self.violation ==> self.response_complete
        &&& self.phase matches Phase::Completing { stream } ==> stream == HTTP_REQ_STREAM_ID
            && self.response_complete
        &&& self.phase is Bailing ==> self.close_requested
        &&& self.phase matches Phase::FirstTransmit { len } ==> len <= MAX_DATAGRAM_SIZE
        &&& self.phase matches Phase::Transmitting { len } ==> len <= MAX_DATAGRAM_SIZE
        &&& self.phase matches Phase::Feeding { len } ==> len <= RECEIVE_BUFFER_SIZE
        &&& (self.phase is FirstFlight || self.phase is FirstTransmit) ==> self
            == DriverState::initial().enter(self.phase)
    }

    /// The state after the first of the waiting streams became the current
    /// one, or, if none waits, after the driver turned to sending.
    pub open spec fn next_stream(self) -> DriverState {
        if self.streams.len() > 0 {
            DriverState {
                phase: Phase::Reading { stream: self.streams[0] },
                streams: self.streams.drop_first(),
                ..self
            }
        } else {
            self.enter(Phase::Producing)
        }
    }

    /// The state after `bytes` were read from `stream`, with `fin` telling
    /// whether the peer has finished the stream.
    ///
    /// The bytes are added to the response. The exchange stream ends the
    /// response when it is finished, and the driver turns to closing the
    /// connection. Bytes that the exchange stream delivers after that are a
    /// violation of the protocol: they are dropped and the violation is
    /// recorded.
    pub open spec fn read(self, stream: u64, bytes: Seq<u8>, fin: bool) -> DriverState {
        if stream == HTTP_REQ_STREAM_ID && self.response_complete {
            DriverState { violation: self.violation || bytes.len() > 0, ..self }
        } else if stream == HTTP_REQ_STREAM_ID && fin {
            DriverState {
                phase: Phase::Completing { stream },
                response: self.response + bytes,
                response_complete: true,
                close_requested: true,
                ..self
            }
        } else {
            DriverState { response: self.response + bytes, ..self }
        }
    }

    /// The state after `event` was reported.
    ///
    /// An event that does not answer the pending operation makes the driver
    /// give up. A driver that has come to an end stays as it is.
    pub open spec fn next(self, event: Event) -> DriverState {
        match self.phase {
            Phase::FirstFlight => match event {
                Event::Produced { len } => if len <= MAX_DATAGRAM_SIZE {
                    self.enter(Phase::FirstTransmit { len })
                } else {
                    self.fail(Failure::Unexpected)
                },
                Event::OutboundIdle => self.fail(Failure::FirstFlight),
                Event::ProduceFailed => self.fail(Failure::FirstFlight),
                _ => self.fail(Failure::Unexpected),
            },
            Phase::FirstTransmit { len } => match event {
                Event::Transmitted => self.enter(Phase::Scheduling),
                Event::TransmitBlocked => self,
                Event::TransportFailed => self.fail(Failure::Transport),
                _ => self.fail(Failure::Unexpected),
            },
            Phase::Scheduling => match event {
                Event::Deadline { timeout } => self.enter(Phase::Waiting { timeout }),
                _ => self.fail(Failure::Unexpected),
            },
            Phase::Waiting { timeout } => match event {
                Event::Ready => self.enter(Phase::Receiving),
                Event::TimedOut => self.enter(Phase::TimingOut),
                Event::TransportFailed => self.fail(Failure::Transport),
                _ => self.fail(Failure::Unexpected),
            },
            Phase::TimingOut => match event {
                Event::TimeoutHandled => self.enter(Phase::Probing),
                _ => self.fail(Failure::Unexpected),
            },
            Phase::Receiving => match event {
                Event::Datagram { len } => if len <= RECEIVE_BUFFER_SIZE {
                    self.enter(Phase::Feeding { len })
                } else {
                    self.fail(Failure::Unexpected)
                },
                Event::InboundIdle => self.enter(Phase::AfterDrain),
                Event::TransportFailed => self.fail(Failure::Transport),
                _ => self.fail(Failure::Unexpected),
            },
            Phase::Feeding { len } => match event {
                Event::Accepted => self.enter(Phase::Receiving),
                Event::Rejected => self.enter(Phase::Receiving),
                _ => self.fail(Failure::Unexpected),
            },
            Phase::AfterDrain => match event {
                Event::Closed { closed } => if closed {
                    DriverState { phase: Phase::Finished, closed: true, ..self }
                } else {
                    self.enter(Phase::Probing)
                },
                _ => self.fail(Failure::Unexpected),
            },
            Phase::Probing => match event {
                Event::Established { established } => if !established {
                    self.enter(Phase::Listing)
                } else if self.request_sent {
                    DriverState { phase: Phase::Listing, established_seen: true, ..self }
                } else {
                    DriverState {
                        phase: Phase::Submitting,
                        established_seen: true,
                        request_sent: true,
                        ..self
                    }
                },
                _ => self.fail(Failure::Unexpected),
            },
            Phase::Submitting => match event {
                Event::RequestSubmitted => self.enter(Phase::Listing),
                Event::RequestRefused => self.fail(Failure::RequestRefused),
                _ => self.fail(Failure::Unexpected),
            },
            Phase::Listing => match event {
                Event::Readable { streams } => DriverState { streams: streams@, ..self }.next_stream(),
                _ => self.fail(Failure::Unexpected),
            },
            Phase::Reading { stream } => match event {
                Event::StreamData { bytes, fin } => self.read(stream, bytes@, fin),
                Event::StreamDry => self.next_stream(),
                _ => self.fail(Failure::Unexpected),
            },
            Phase::Completing { stream } => match event {
                Event::CloseHandled => self.enter(Phase::Reading { stream }),
                _ => self.fail(Failure::Unexpected),
            },
            Phase::Producing => match event {
                Event::Produced { len } => if len <= MAX_DATAGRAM_SIZE {
                    self.enter(Phase::Transmitting { len })
                } else {
                    self.fail(Failure::Unexpected)
                },
                Event::OutboundIdle => self.enter(Phase::AfterFlush),
                Event::ProduceFailed => DriverState {
                    phase: Phase::Bailing,
                    close_requested: true,
                    ..self
                },
                _ => self.fail(Failure::Unexpected),
            },
            Phase::Transmitting { len } => match event {
                Event::Transmitted => self.enter(Phase::Producing),
                Event::TransmitBlocked => self.enter(Phase::AfterFlush),
                Event::TransportFailed => self.fail(Failure::Transport),
                _ => self.fail(Failure::Unexpected),
            },
            Phase::Bailing => match event {
                Event::CloseHandled => self.enter(Phase::AfterFlush),
                _ => self.fail(Failure::Unexpected),
            },
            Phase::AfterFlush => match event {
                Event::Closed { closed } => if closed {
                    DriverState { phase: Phase::Finished, closed: true, ..self }
                } else {
                    self.enter(Phase::Scheduling)
                },
                _ => self.fail(Failure::Unexpected),
            },
            Phase::Finished => self,
            Phase::Failed { failure } => self,
        }
    }
}

/// Drives one connection through one request and its response.
pub struct Driver {
    phase: Phase,
    established_seen: bool,
    close_requested: bool,
    closed: bool,
    request: Vec<u8>,
    request_sent: bool,
    response: Vec<u8>,
    response_complete: bool,
    violation: bool,
    streams: Vec<u64>,
    cursor: usize,
}

impl View for Driver {
    type V = DriverState;

    closed spec fn view(&self) -> DriverState {
        DriverState {
            phase: self.phase,
            established_seen: self.established_seen,
            close_requested: self.close_requested,
            closed: self.closed,
            request_sent: self.request_sent,
            response: self.response@,
            response_complete: self.response_complete,
            violation: self.violation,
            streams: if self.cursor <= self.streams@.len() {
                self.streams@.subrange(self.cursor as int, self.streams@.len() as int)
            } else {
                Seq::empty()
            },
        }
    }
}

impl Driver {
    /// The bytes of the request that the driver submits.
    pub closed spec fn request_bytes(&self) -> Seq<u8> {
        self.request@
    }

    /// A driver for a connection on which nothing has happened yet. It
    /// will ask for `path`, with one request, whole and once.
    pub fn new(path: &str) -> (driver: Driver)
        ensures
            driver@ == DriverState::initial(),
            driver@.valid(),
            driver.request_bytes() == request_line(path@),
    {
        Driver::with_request(encode_request(path))
    }

    /// A driver that will ask for the path of `url`, or `None` where `url`
    /// is no absolute URL.
    pub fn for_url(url: &str) -> (driver: Option<Driver>)
        ensures
            match driver {
                Some(made) => {
                    &&& made@ == DriverState::initial()
                    &&& made@.valid()
                    &&& url_path(url@) matches Some(path)
                    &&& made.request_bytes() == request_line(path)
                },
                None => url_path(url@) is None,
            },
    {
        match request_for(url) {
            Some(request) => Some(Driver::with_request(request)),
            None => None,
        }
    }

    /// A driver that will submit `request`.
    fn with_request(request: Vec<u8>) -> (driver: Driver)
        ensures
            driver@ == DriverState::initial(),
            driver@.valid(),
            driver.request_bytes() == request@,
    {
        Driver {
            phase: Phase::FirstFlight,
            established_seen: false,
            close_requested: false,
            closed: false,
            request,
            request_sent: false,
            response: Vec::new(),
            response_complete: false,
            violation: false,
            streams: Vec::new(),
            cursor: 0,
        }
    }

    /// The operation to perform next. It stays the same until its outcome
    /// is reported to [`Driver::step`].
    pub fn pending(&self) -> (action: Action)
        ensures
            action == self@.phase.pending(),
    {
        self.phase.action()
    }

    /// Takes the outcome of the pending operation and names the next one.
    pub fn step(&mut self, event: Event) -> (action: Action)
        ensures
            final(self)@ == old(self)@.next(event),
            old(self)@.valid() ==> final(self)@.valid(),
            final(self).request_bytes() == old(self).request_bytes(),
            action == final(self)@.phase.pending(),
    {
        proof {
            if old(self)@.valid() {
                lemma_next_valid(old(self)@, event);
            }
        }
        let phase = self.phase;
        match phase {
            Phase::FirstFlight => match event {
                Event::Produced { len } => {
                    if len <= MAX_DATAGRAM_SIZE {
                        self.phase = Phase::FirstTransmit { len };
                    } else {
                        self.phase = Phase::Failed { failure: Failure::Unexpected };
                    }
                },
                Event::OutboundIdle => {
                    self.phase = Phase::Failed { failure: Failure::FirstFlight };
                },
                Event::ProduceFailed => {
                    self.phase = Phase::Failed { failure: Failure::FirstFlight };
                },
                _ => {
                    self.phase = Phase::Failed { failure: Failure::Unexpected };
                },
            },
            Phase::FirstTransmit { len: _ } => match event {
                Event::Transmitted => {
                    self.phase = Phase::Scheduling;
                },
                Event::TransmitBlocked => {},
                Event::TransportFailed => {
                    self.phase = Phase::Failed { failure: Failure::Transport };
                },
                _ => {
                    self.phase = Phase::Failed { failure: Failure::Unexpected };
                },
            },
            Phase::Scheduling => match event {
                Event::Deadline { timeout } => {
                    self.phase = Phase::Waiting { timeout };
                },
                _ => {
                    self.phase = Phase::Failed { failure: Failure::Unexpected };
                },
            },
            Phase::Waiting { timeout: _ } => match event {
                Event::Ready => {
                    self.phase = Phase::Receiving;
                },
                Event::TimedOut => {
                    self.phase = Phase::TimingOut;
                },
                Event::TransportFailed => {
                    self.phase = Phase::Failed { failure: Failure::Transport };
                },
                _ => {
                    self.phase = Phase::Failed { failure: Failure::Unexpected };
                },
            },
            Phase::TimingOut => match event {
                Event::TimeoutHandled => {
                    self.phase = Phase::Probing;
                },
                _ => {
                    self.phase = Phase::Failed { failure: Failure::Unexpected };
                },
            },
            Phase::Receiving => match event {
                Event::Datagram { len } => {
                    if len <= RECEIVE_BUFFER_SIZE {
                        self.phase = Phase::Feeding { len };
                    } else {
                        self.phase = Phase::Failed { failure: Failure::Unexpected };
                    }
                },
                Event::InboundIdle => {
                    self.phase = Phase::AfterDrain;
                },
                Event::TransportFailed => {
                    self.phase = Phase::Failed { failure: Failure::Transport };
                },
                _ => {
                    self.phase = Phase::Failed { failure: Failure::Unexpected };
                },
            },
            Phase::Feeding { len: _ } => match event {
                Event::Accepted => {
                    self.phase = Phase::Receiving;
                },
                Event::Rejected => {
                    self.phase = Phase::Receiving;
                },
                _ => {
                    self.phase = Phase::Failed { failure: Failure::Unexpected };
                },
            },
            Phase::AfterDrain => match event {
                Event::Closed { closed } => {
                    if closed {
                        self.closed = true;
                        self.phase = Phase::Finished;
                    } else {
                        self.phase = Phase::Probing;
                    }
                },
                _ => {
                    self.phase = Phase::Failed { failure: Failure::Unexpected };
                },
            },
            Phase::Probing => match event {
                Event::Established { established } => {
                    if !established {
                        self.phase = Phase::Listing;
                    } else if self.request_sent {
                        self.established_seen = true;
                        self.phase = Phase::Listing;
                    } else {
                        self.established_seen = true;
                        self.request_sent = true;
                        self.phase = Phase::Submitting;
                    }
                },
                _ => {
                    self.phase = Phase::Failed { failure: Failure::Unexpected };
                },
            },
            Phase::Submitting => match event {
                Event::RequestSubmitted => {
                    self.phase = Phase::Listing;
                },
                Event::RequestRefused => {
                    self.phase = Phase::Failed { failure: Failure::RequestRefused };
                },
                _ => {
                    self.phase = Phase::Failed { failure: Failure::Unexpected };
                },
            },
            Phase::Listing => match event {
                Event::Readable { streams } => {
                    self.streams = streams;
                    self.cursor = 0;
                    self.advance();
                },
                _ => {
                    self.phase = Phase::Failed { failure: Failure::Unexpected };
                },
            },
            Phase::Reading { stream } => match event {
                Event::StreamData { bytes, fin } => {
                    self.take(stream, bytes, fin);
                },
                Event::StreamDry => {
                    self.advance();
                },
                _ => {
                    self.phase = Phase::Failed { failure: Failure::Unexpected };
                },
            },
            Phase::Completing { stream } => match event {
                Event::CloseHandled => {
                    self.phase = Phase::Reading { stream };
                },
                _ => {
                    self.phase = Phase::Failed { failure: Failure::Unexpected };
                },
            },
            Phase::Producing => match event {
                Event::Produced { len } => {
                    if len <= MAX_DATAGRAM_SIZE {
                        self.phase = Phase::Transmitting { len };
                    } else {
                        self.phase = Phase::Failed { failure: Failure::Unexpected };
                    }
                },
                Event::OutboundIdle => {
                    self.phase = Phase::AfterFlush;
                },
                Event::ProduceFailed => {
                    self.close_requested = true;
                    self.phase = Phase::Bailing;
                },
                _ => {
                    self.phase = Phase::Failed { failure: Failure::Unexpected };
                },
            },
            Phase::Transmitting { len: _ } => match event {
                Event::Transmitted => {
                    self.phase = Phase::Producing;
                },
                Event::TransmitBlocked => {
                    self.phase = Phase::AfterFlush;
                },
                Event::TransportFailed => {
                    self.phase = Phase::Failed { failure: Failure::Transport };
                },
                _ => {
                    self.phase = Phase::Failed { failure: Failure::Unexpected };
                },
            },
            Phase::Bailing => match event {
                Event::CloseHandled => {
                    self.phase = Phase::AfterFlush;
                },
                _ => {
                    self.phase = Phase::Failed { failure: Failure::Unexpected };
                },
            },
            Phase::AfterFlush => match event {
                Event::Closed { closed } => {
                    if closed {
                        self.closed = true;
                        self.phase = Phase::Finished;
                    } else {
                        self.phase = Phase::Scheduling;
                    }
                },
                _ => {
                    self.phase = Phase::Failed { failure: Failure::Unexpected };
                },
            },
            Phase::Finished => {},
            Phase::Failed { failure: _ } => {},
        }
        self.phase.action()
    }

    /// The operation whose outcome the driver is waiting for.
    pub fn phase(&self) -> (phase: Phase)
        ensures
            phase == self@.phase,
    {
        self.phase
    }

    /// The stage of the connection, as far as the driver has seen.
    pub fn lifecycle(&self) -> (stage: Lifecycle)
        ensures
            stage == self@.lifecycle(),
    {
        if self.closed {
            Lifecycle::Closed
        } else if self.close_requested {
            Lifecycle::Closing
        } else if self.established_seen {
            Lifecycle::Established
        } else {
            Lifecycle::Handshaking
        }
    }

    /// Whether the connection is closed and the loop is over.
    pub fn is_finished(&self) -> (finished: bool)
        ensures
            finished == (self@.phase is Finished),
    {
        match self.phase {
            Phase::Finished => true,
            _ => false,
        }
    }

    /// Why the driver gave up, if it did.
    pub fn failure(&self) -> (failure: Option<Failure>)
        ensures
            match failure {
                Some(f) => self@.phase == (Phase::Failed { failure: f }),
                None => !(self@.phase is Failed),
            },
    {
        match self.phase {
            Phase::Failed { failure } => Some(failure),
            _ => None,
        }
    }

    /// The request that the driver submits.
    pub fn request(&self) -> (request: &[u8])
        ensures
            request@ == self.request_bytes(),
    {
        self.request.as_slice()
    }

    /// Whether the request was handed to the engine.
    pub fn request_sent(&self) -> (sent: bool)
        ensures
            sent == self@.request_sent,
    {
        self.request_sent
    }

    /// The bytes read so far.
    pub fn response(&self) -> (response: &[u8])
        ensures
            response@ == self@.response,
    {
        self.response.as_slice()
    }

    /// The bytes read so far as text, or an error where they are not valid
    /// UTF-8.
    pub fn response_text(&self) -> (text: Result<&str, DecodeError>)
        ensures
            text is Ok <==> valid_utf8(self@.response),
            text matches Ok(t) ==> t@ == decode_utf8(self@.response),
    {
        response_text(self.response.as_slice())
    }

    /// Whether the peer finished the exchange stream.
    pub fn response_complete(&self) -> (complete: bool)
        ensures
            complete == self@.response_complete,
    {
        self.response_complete
    }

    /// Whether the exchange stream delivered bytes after it was finished.
    pub fn protocol_violation(&self) -> (violation: bool)
        ensures
            violation == self@.violation,
    {
        self.violation
    }

    /// Turns to the next waiting stream, or to sending if none waits.
    fn advance(&mut self)
        ensures
            final(self)@ == old(self)@.next_stream(),
            final(self).request_bytes() == old(self).request_bytes(),
    {
        if self.cursor < self.streams.len() {
            let stream = self.streams[self.cursor];
            self.phase = Phase::Reading { stream };
            self.cursor = self.cursor + 1;
        } else {
            self.phase = Phase::Producing;
        }
    }

    /// Takes in what was read from `stream`.
    fn take(&mut self, stream: u64, bytes: Vec<u8>, fin: bool)
        ensures
            final(self)@ == old(self)@.read(stream, bytes@, fin),
            final(self).request_bytes() == old(self).request_bytes(),
    {
        let mut bytes = bytes;
        if stream == HTTP_REQ_STREAM_ID && self.response_complete {
            if bytes.len() > 0 {
                self.violation = true;
            }
        } else if stream == HTTP_REQ_STREAM_ID && fin {
            self.response.append(&mut bytes);
            self.response_complete = true;
            self.close_requested = true;
            self.phase = Phase::Completing { stream };
        } else {
            self.response.append(&mut bytes);
        }
    }
}

} // verus!
