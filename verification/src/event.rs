//! What the driver asks of its surroundings, and what it is told in return.
//!
//! The driver never touches the socket, the readiness notifier or the QUIC
//! engine itself. It names the next operation as an [`Action`]; whoever runs
//! the loop performs that operation and reports its outcome as an [`Event`].

use vstd::prelude::*;

verus! {

/// How long the engine wants the driver to wait at most: whole seconds and
/// the nanoseconds beyond them.
#[derive(Clone, Copy, Debug, PartialEq, Eq, Structural)]
pub struct Timeout {
    pub secs: u64,
    pub nanos: u32,
}

/// Why the driver asks the engine to close the connection.
#[derive(Clone, Copy, Debug, PartialEq, Eq, Structural)]
pub enum CloseCause {
    /// The peer finished the exchange stream: the whole response is here.
    ResponseReceived,
    /// The engine could not produce an outgoing datagram.
    SendFailed,
}

impl CloseCause {
    /// Whether the close is the application's own doing.
    pub open spec fn app_triggered(self) -> bool {
        self == CloseCause::ResponseReceived
    }

    /// The error code that goes with the close.
    pub open spec fn code(self) -> u64 {
        match self {
            CloseCause::ResponseReceived => 0,
            CloseCause::SendFailed => 1,
        }
    }

    /// The reason text that goes with the close.
    pub open spec fn reason_text(self) -> Seq<char> {
        match self {
            CloseCause::ResponseReceived => "kthxbye"@,
            CloseCause::SendFailed => "fail"@,
        }
    }

    /// Whether the close is the application's own doing: true after a
    /// complete response, false after a failure.
    pub fn is_app_triggered(&self) -> (app: bool)
        ensures
            app == self.app_triggered(),
    {
        match self {
            CloseCause::ResponseReceived => true,
            CloseCause::SendFailed => false,
        }
    }

    /// The error code: 0 after a complete response, 1 after a failure.
    pub fn error_code(&self) -> (code: u64)
        ensures
            code == self.code(),
    {
        match self {
            CloseCause::ResponseReceived => 0,
            CloseCause::SendFailed => 1,
        }
    }

    /// The reason given to the peer.
    pub fn reason(&self) -> (text: &'static str)
        ensures
            text@ == self.reason_text(),
    {
        match self {
            CloseCause::ResponseReceived => "kthxbye",
            CloseCause::SendFailed => "fail",
        }
    }
}

/// Why the driver gave up.
#[derive(Clone, Copy, Debug, PartialEq, Eq, Structural)]
pub enum Failure {
    /// The engine had no first datagram to open the handshake with.
    FirstFlight,
    /// The socket or the notifier failed with something other than
    /// "would block".
    Transport,
    /// The engine refused the request on the exchange stream.
    RequestRefused,
    /// An event was reported that does not answer the pending action.
    Unexpected,
}

/// The next operation to perform.
#[derive(Clone, Copy, Debug, PartialEq, Eq, Structural)]
pub enum Action {
    /// Ask the engine for its next outgoing datagram.
    Produce,
    /// Send the first `len` bytes of the outbound buffer to the destination
    /// that the engine named for them.
    Transmit { len: usize },
    /// Ask the engine for its current timeout.
    QueryTimeout,
    /// Wait until the socket is readable or the timeout has passed; without
    /// a timeout, wait until the socket is readable.
    Wait { timeout: Option<Timeout> },
    /// Tell the engine that its timeout has passed.
    FireTimeout,
    /// Take the next datagram from the socket.
    Receive,
    /// Hand the first `len` bytes of the inbound buffer to the engine.
    Feed { len: usize },
    /// Ask the engine whether the connection is closed.
    QueryClosed,
    /// Ask the engine whether the handshake is complete.
    QueryEstablished,
    /// Write the request to `stream`, finishing the stream if `fin` is set.
    SubmitRequest { stream: u64, fin: bool },
    /// Ask the engine which streams have data to read.
    ListReadable,
    /// Read what `stream` holds, as far as the buffer takes it.
    ReadStream { stream: u64 },
    /// Ask the engine to close the connection.
    Close { cause: CloseCause },
    /// The connection is closed: leave the loop.
    Finish,
    /// Give up.
    Abort { failure: Failure },
}

/// The outcome of an operation.
#[derive(Clone, Debug)]
pub enum Event {
    /// The engine wrote a datagram of `len` bytes into the outbound buffer.
    Produced { len: usize },
    /// The engine has nothing to send for now.
    OutboundIdle,
    /// The engine failed to produce a datagram.
    ProduceFailed,
    /// The socket took the datagram.
    Transmitted,
    /// The socket would block: the datagram was not sent.
    TransmitBlocked,
    /// The socket or the notifier failed for good.
    TransportFailed,
    /// The engine's current timeout, if it has one.
    Deadline { timeout: Option<Timeout> },
    /// The socket became readable.
    Ready,
    /// The timeout passed and nothing is ready.
    TimedOut,
    /// The engine has handled its timeout.
    TimeoutHandled,
    /// A datagram of `len` bytes is in the inbound buffer.
    Datagram { len: usize },
    /// The socket would block: no datagram is queued.
    InboundIdle,
    /// The engine took the datagram.
    Accepted,
    /// The engine could not decode the datagram.
    Rejected,
    /// Whether the connection is closed.
    Closed { closed: bool },
    /// Whether the handshake is complete.
    Established { established: bool },
    /// The engine took the request.
    RequestSubmitted,
    /// The engine refused the request.
    RequestRefused,
    /// The streams that have data to read.
    Readable { streams: Vec<u64> },
    /// Bytes read from the stream, and whether the peer has finished it.
    StreamData { bytes: Vec<u8>, fin: bool },
    /// The stream has no more data for now.
    StreamDry,
    /// The engine has handled the request to close.
    CloseHandled,
}

} // verus!
