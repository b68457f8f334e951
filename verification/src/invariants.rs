//! What holds of every run of the driver, whatever the engine, the socket
//! and the notifier report.

use crate::driver::{DriverState, Lifecycle, Phase};
use crate::event::{Action, CloseCause, Event, Failure};
use crate::settings::{HTTP_REQ_STREAM_ID, MAX_DATAGRAM_SIZE, RECEIVE_BUFFER_SIZE};
use vstd::prelude::*;

verus! {

impl DriverState {
    /// The state after the events of `events` were reported one after the
    /// other.
    pub open spec fn run(self, events: Seq<Event>) -> DriverState
        decreases events.len(),
    {
        if events.len() == 0 {
            self
        } else {
            self.run(events.drop_last()).next(events.last())
        }
    }

    /// How often, while `events` were reported, the driver turned to
    /// submitting the request.
    pub open spec fn submissions(self, events: Seq<Event>) -> nat
        decreases events.len(),
    {
        if events.len() == 0 {
            0
        } else {
            let earlier = self.submissions(events.drop_last());
            if self.run(events) matches DriverState { phase: Phase::Submitting, .. } {
                earlier + 1
            } else {
                earlier
            }
        }
    }

    /// Whether `event`, reported in this state, shows that the peer has
    /// finished the exchange stream.
    pub open spec fn sees_fin(self, event: Event) -> bool {
        &&& self.phase == Phase::Reading { stream: HTTP_REQ_STREAM_ID }
        &&& event matches Event::StreamData { fin, .. }
        &&& fin
    }

    /// Whether one of `events`, reported one after the other from this state
    /// on, showed that the peer has finished the exchange stream.
    pub open spec fn saw_fin(self, events: Seq<Event>) -> bool
        decreases events.len(),
    {
        if events.len() == 0 {
            false
        } else {
            self.saw_fin(events.drop_last()) || self.run(events.drop_last()).sees_fin(
                events.last(),
            )
        }
    }

    /// The bytes that `event`, reported in this state, adds to the
    /// response: what was read from a stream, unless the stream is the
    /// exchange stream and was finished before.
    pub open spec fn takes_in(self, event: Event) -> Seq<u8> {
        match (self.phase, event) {
            (Phase::Reading { stream }, Event::StreamData { bytes, fin }) => if stream
                == HTTP_REQ_STREAM_ID && self.response_complete {
                Seq::empty()
            } else {
                bytes@
            },
            _ => Seq::empty(),
        }
    }

    /// The bytes that `events`, reported one after the other from this
    /// state on, add to the response, in the order of the events.
    pub open spec fn took_in(self, events: Seq<Event>) -> Seq<u8>
        decreases events.len(),
    {
        if events.len() == 0 {
            Seq::empty()
        } else {
            self.took_in(events.drop_last()) + self.run(events.drop_last()).takes_in(
                events.last(),
            )
        }
    }
}

/// The events of one burst of inbound datagrams: each datagram, given by its
/// length, followed by the engine's verdict on it.
pub open spec fn burst(datagrams: Seq<(usize, bool)>) -> Seq<Event>
    decreases datagrams.len(),
{
    if datagrams.len() == 0 {
        Seq::empty()
    } else {
        burst(datagrams.drop_last()).push(Event::Datagram { len: datagrams.last().0 }).push(
            if datagrams.last().1 {
                Event::Accepted
            } else {
                Event::Rejected
            },
        )
    }
}

/// A driver starts in a valid state.
pub proof fn lemma_initial_valid()
    ensures
        DriverState::initial().valid(),
{
}

/// No event leads out of the valid states.
pub proof fn lemma_next_valid(s: DriverState, event: Event)
    requires
        s.valid(),
    ensures
        s.next(event).valid(),
{
}

/// No sequence of events leads out of the valid states.
pub proof fn lemma_run_valid(s: DriverState, events: Seq<Event>)
    requires
        s.valid(),
    ensures
        s.run(events).valid(),
    decreases events.len(),
{
    if events.len() > 0 {
        lemma_run_valid(s, events.drop_last());
        lemma_next_valid(s.run(events.drop_last()), events.last());
    }
}

/// A connection never goes back to an earlier stage: whatever is reported,
/// the stage after it is the same or a later one.
pub proof fn lemma_lifecycle_advances(s: DriverState, event: Event)
    ensures
        s.lifecycle().rank() <= s.next(event).lifecycle().rank(),
{
}

/// Closed is the end: once the connection was seen closed, no sequence of
/// events changes anything about the driver.
pub proof fn lemma_closed_is_terminal(s: DriverState, events: Seq<Event>)
    requires
        s.valid(),
        s.lifecycle() == Lifecycle::Closed,
    ensures
        s.run(events) == s,
        s.run(events).phase.pending() == Action::Finish,
    decreases events.len(),
{
    if events.len() > 0 {
        lemma_closed_is_terminal(s, events.drop_last());
    }
}

/// A driver that has given up stays as it is.
pub proof fn lemma_failure_is_terminal(s: DriverState, events: Seq<Event>)
    requires
        s.phase is Failed,
    ensures
        s.run(events) == s,
    decreases events.len(),
{
    if events.len() > 0 {
        lemma_failure_is_terminal(s, events.drop_last());
    }
}

/// The driver turns to submitting the request only when the engine has just
/// reported the handshake complete and the request was not submitted before.
pub proof fn lemma_request_waits_for_handshake(s: DriverState, event: Event)
    requires
        s.next(event).phase is Submitting,
    ensures
        s.phase is Probing,
        event matches Event::Established { established } && established,
        !s.request_sent,
        s.next(event).request_sent,
        s.next(event).established_seen,
{
}

/// The request is submitted at most once on a connection, and never again
/// once it counts as sent.
pub proof fn lemma_request_submitted_once(s: DriverState, events: Seq<Event>)
    requires
        s.valid(),
    ensures
        s.submissions(events) <= 1,
        s.request_sent ==> s.submissions(events) == 0,
        s.submissions(events) == 1 ==> s.run(events).request_sent,
    decreases events.len(),
{
    if events.len() > 0 {
        let earlier = events.drop_last();
        lemma_request_submitted_once(s, earlier);
        lemma_run_sent_stays(s, earlier);
        lemma_run_valid(s, earlier);
    }
}

/// On a connection whose request counts as sent, the engine has reported
/// the handshake complete at some point before: one of the events was that
/// report, and it came while the driver asked for it.
pub proof fn lemma_request_follows_handshake(s: DriverState, events: Seq<Event>)
    requires
        !s.request_sent,
        s.run(events).request_sent,
    ensures
        exists|i: int|
            0 <= i < events.len() && #[trigger] events[i] == (Event::Established {
                established: true,
            }) && s.run(events.take(i)).phase is Probing && !s.run(events.take(i)).request_sent,
    decreases events.len(),
{
    let earlier = events.drop_last();
    assert(events.len() > 0);
    if s.run(earlier).request_sent {
        lemma_request_follows_handshake(s, earlier);
        let i = choose|i: int|
            0 <= i < earlier.len() && #[trigger] earlier[i] == (Event::Established {
                established: true,
            }) && s.run(earlier.take(i)).phase is Probing && !s.run(earlier.take(i)).request_sent;
        assert(earlier.take(i) == events.take(i));
        assert(events[i] == earlier[i]);
    } else {
        let i = events.len() - 1;
        assert(events.take(i) == earlier);
        assert(events[i] == events.last());
    }
}

/// A request that counts as sent counts as sent ever after.
pub proof fn lemma_run_sent_stays(s: DriverState, events: Seq<Event>)
    ensures
        s.request_sent ==> s.run(events).request_sent,
    decreases events.len(),
{
    if events.len() > 0 {
        lemma_run_sent_stays(s, events.drop_last());
    }
}

/// The response becomes complete exactly when the peer is seen to finish
/// the exchange stream.
pub proof fn lemma_completion_is_fin(s: DriverState, event: Event)
    ensures
        s.next(event).response_complete <==> s.response_complete || s.sees_fin(event),
{
}

/// After any sequence of events the response is complete exactly if it was
/// before or one of the events showed the exchange stream finished.
pub proof fn lemma_run_completion_is_fin(s: DriverState, events: Seq<Event>)
    ensures
        s.run(events).response_complete <==> s.response_complete || s.saw_fin(events),
    decreases events.len(),
{
    if events.len() > 0 {
        lemma_run_completion_is_fin(s, events.drop_last());
        lemma_completion_is_fin(s.run(events.drop_last()), events.last());
    }
}

/// Bytes that the exchange stream delivers after it was finished are a
/// violation: they are recorded as one and kept out of the response, and the
/// driver goes on reading.
pub proof fn lemma_bytes_after_fin_are_violation(s: DriverState, bytes: Vec<u8>, fin: bool)
    requires
        s.phase == (Phase::Reading { stream: HTTP_REQ_STREAM_ID }),
        s.response_complete,
        bytes@.len() > 0,
    ensures
        s.next(Event::StreamData { bytes, fin }) == (DriverState { violation: true, ..s }),
{
}

/// A violation is recorded only for bytes on the finished exchange stream.
pub proof fn lemma_violation_needs_bytes_after_fin(s: DriverState, event: Event)
    requires
        !s.violation,
        s.next(event).violation,
    ensures
        s.phase == (Phase::Reading { stream: HTTP_REQ_STREAM_ID }),
        s.response_complete,
        event matches Event::StreamData { bytes, .. } && bytes@.len() > 0,
{
}

/// A datagram that the engine cannot decode does not end the draining: the
/// driver goes on exactly as after one that the engine took, by asking the
/// socket for the next datagram.
pub proof fn lemma_rejected_datagram_keeps_draining(s: DriverState)
    requires
        s.phase is Feeding,
    ensures
        s.next(Event::Rejected) == s.next(Event::Accepted),
        s.next(Event::Rejected) == s.enter(Phase::Receiving),
        s.next(Event::Rejected).phase.pending() == Action::Receive,
{
}

/// Within one burst every datagram is handed to the engine, whatever the
/// engine made of the datagrams before it, and after the burst the driver is
/// as it was, asking for the next datagram.
pub proof fn lemma_burst_is_drained(s: DriverState, datagrams: Seq<(usize, bool)>)
    requires
        s.phase is Receiving,
        forall|k: int| 0 <= k < datagrams.len() ==> (#[trigger] datagrams[k]).0 <= RECEIVE_BUFFER_SIZE,
    ensures
        s.run(burst(datagrams)) == s,
        forall|k: int|
            0 <= k < datagrams.len() ==> s.run(
                #[trigger] burst(datagrams.take(k)).push(Event::Datagram { len: datagrams[k].0 }),
            ) == s.enter(Phase::Feeding { len: datagrams[k].0 }),
    decreases datagrams.len(),
{
    if datagrams.len() > 0 {
        let earlier = datagrams.drop_last();
        let last = datagrams.last();
        lemma_burst_is_drained(s, earlier);
        let fed = burst(earlier).push(Event::Datagram { len: last.0 });
        assert(fed.drop_last() == burst(earlier));
        assert(s.run(fed) == s.enter(Phase::Feeding { len: last.0 }));
        assert(burst(datagrams).drop_last() == fed);
        assert forall|k: int| 0 <= k < datagrams.len() implies s.run(
            #[trigger] burst(datagrams.take(k)).push(Event::Datagram { len: datagrams[k].0 }),
        ) == s.enter(Phase::Feeding { len: datagrams[k].0 }) by {
            if k < earlier.len() {
                assert(datagrams.take(k) == earlier.take(k));
                assert(datagrams[k] == earlier[k]);
            } else {
                assert(datagrams.take(k) == earlier);
            }
        }
    }
}

/// Asking the engine to close twice is the same as asking once.
pub proof fn lemma_close_idempotent(stage: Lifecycle)
    ensures
        stage.closing().closing() == stage.closing(),
        stage.rank() <= stage.closing().rank(),
{
}

/// A failure to produce a datagram makes the driver ask the engine to close
/// and go on to see whether the connection is closed. Where the engine was
/// asked to close before, as after a complete response, the second request
/// changes nothing but the phase.
pub proof fn lemma_close_after_close(s: DriverState)
    requires
        s.phase is Producing,
    ensures
        s.next(Event::ProduceFailed).phase.pending() == (Action::Close {
            cause: CloseCause::SendFailed,
        }),
        s.next(Event::ProduceFailed).next(Event::CloseHandled) == (DriverState {
            phase: Phase::AfterFlush,
            close_requested: true,
            ..s
        }),
        s.close_requested ==> s.next(Event::ProduceFailed).next(Event::CloseHandled) == s.enter(
            Phase::AfterFlush,
        ),
        s.next(Event::ProduceFailed).lifecycle() == s.lifecycle().closing(),
{
}

/// What is offered to the socket is exactly as long as what the engine
/// produced, and fits the outbound buffer.
pub proof fn lemma_transmit_takes_what_was_produced(s: DriverState, event: Event)
    requires
        s.next(event).phase != s.phase,
        s.next(event).phase.pending() is Transmit,
    ensures
        event matches Event::Produced { len } && len <= MAX_DATAGRAM_SIZE && s.next(
            event,
        ).phase.pending() == (Action::Transmit { len }),
{
}

/// A datagram that the socket would not take when the connection opened is
/// offered again, the same length of the same buffer.
pub proof fn lemma_first_datagram_is_retried(s: DriverState)
    requires
        s.phase is FirstTransmit,
    ensures
        s.next(Event::TransmitBlocked) == s,
{
}

/// Later on a socket that would block ends the sending for this round: the
/// driver goes on to see whether the connection is closed, and gives nothing
/// up.
pub proof fn lemma_blocked_socket_ends_round(s: DriverState)
    requires
        s.phase is Transmitting,
    ensures
        s.next(Event::TransmitBlocked) == s.enter(Phase::AfterFlush),
        s.next(Event::TransmitBlocked).phase.pending() == Action::QueryClosed,
{
}

/// The driver waits for exactly as long as the engine has just said.
pub proof fn lemma_wait_uses_current_timeout(s: DriverState, event: Event)
    requires
        s.next(event).phase.pending() is Wait,
        !(s.phase is Waiting),
    ensures
        s.phase is Scheduling,
        event matches Event::Deadline { timeout } && s.next(event).phase.pending() == (
        Action::Wait { timeout }),
{
}

/// The driver gives up only for a failure of the transport, for a first
/// datagram or a request that the engine refused, or for an event that does
/// not answer the pending operation; never for a datagram that the engine
/// could not decode or a socket that would block.
pub proof fn lemma_what_is_fatal(s: DriverState, event: Event)
    requires
        s.valid(),
        !(s.phase is Failed),
        s.next(event).phase is Failed,
    ensures
        !(event is Rejected && s.phase is Feeding),
        !(event is TransmitBlocked && (s.phase is Transmitting || s.phase is FirstTransmit)),
        !(event is InboundIdle && s.phase is Receiving),
        !(event is ProduceFailed && s.phase is Producing),
        s.next(event).phase == (Phase::Failed { failure: Failure::Transport })
            ==> event is TransportFailed,
{
}

/// What was read stays read, in the order it was read: whatever is
/// reported, the response afterwards starts with the response before.
pub proof fn lemma_response_only_grows(s: DriverState, event: Event)
    ensures
        s.response.is_prefix_of(s.next(event).response),
{
    let after = s.next(event).response;
    if after != s.response {
        assert(s.phase is Reading);
        let bytes = event->StreamData_bytes;
        assert(after == s.response + bytes@);
        assert(after.subrange(0, s.response.len() as int) =~= s.response);
    }
}

/// The response is what was read, all of it, once, and in the order in which
/// it was read.
pub proof fn lemma_run_response_is_what_was_read(s: DriverState, events: Seq<Event>)
    ensures
        s.run(events).response == s.response + s.took_in(events),
    decreases events.len(),
{
    if events.len() > 0 {
        lemma_run_response_is_what_was_read(s, events.drop_last());
        let before = s.run(events.drop_last());
        assert(before.next(events.last()).response == before.response + before.takes_in(
            events.last(),
        ));
    }
}

/// Once the engine has reported the handshake complete, the request counts
/// as sent: it is submitted right then unless it was before.
pub proof fn lemma_handshake_sends_request(s: DriverState)
    requires
        s.phase is Probing,
    ensures
        s.next(Event::Established { established: true }).request_sent,
        !s.request_sent ==> s.next(Event::Established { established: true }).phase.pending() == (
        Action::SubmitRequest { stream: HTTP_REQ_STREAM_ID, fin: true }),
        s.request_sent ==> s.next(Event::Established { established: true }).phase.pending()
            == Action::ListReadable,
{
}

/// Bytes that were read from a stream are added to the end of the response,
/// all of them and once, unless the stream is the exchange stream and
/// finished before.
pub proof fn lemma_read_appends(s: DriverState, stream: u64, bytes: Vec<u8>, fin: bool)
    requires
        s.phase == (Phase::Reading { stream }),
        !(stream == HTTP_REQ_STREAM_ID && s.response_complete),
    ensures
        s.next(Event::StreamData { bytes, fin }).response == s.response + bytes@,
{
}

/// The inbound datagrams are drained before anything else happens in a
/// round: the driver leaves off receiving only when the socket has no
/// datagram left, or when it gives up.
pub proof fn lemma_inbound_is_drained_first(s: DriverState, event: Event)
    requires
        s.phase is Receiving || s.phase is Feeding,
        !(s.next(event).phase is Receiving),
        !(s.next(event).phase is Feeding),
        !(s.next(event).phase is Failed),
    ensures
        s.phase is Receiving,
        event is InboundIdle,
        s.next(event).phase is AfterDrain,
{
}

/// The engine is asked for the next datagram as long as it has one and the
/// socket takes it: sending ends for a round only when the engine is idle,
/// when the socket would block or when the engine failed and was asked to
/// close.
pub proof fn lemma_outbound_is_drained(s: DriverState, event: Event)
    requires
        s.next(event).phase is AfterFlush,
        !(s.phase is AfterFlush),
    ensures
        ({
            ||| s.phase is Producing && event is OutboundIdle
            ||| s.phase is Transmitting && event is TransmitBlocked
            ||| s.phase is Bailing && event is CloseHandled
        }),
{
}

/// A datagram that the socket took is followed by the question for the
/// next one.
pub proof fn lemma_sending_goes_on(s: DriverState)
    requires
        s.phase is Transmitting,
    ensures
        s.next(Event::Transmitted).phase.pending() == Action::Produce,
{
}

/// The driver goes back to waiting only when the outgoing datagrams were
/// drained and the connection was found open, or when the opening datagram
/// went out.
pub proof fn lemma_wait_follows_flush(s: DriverState, event: Event)
    requires
        s.next(event).phase is Scheduling,
        !(s.phase is Scheduling),
    ensures
        ({
            ||| s.phase is AfterFlush && event == (Event::Closed { closed: false })
            ||| s.phase is FirstTransmit && event is Transmitted
        }),
{
}

/// When the timeout passes with nothing ready, the engine is told so, and
/// the round goes on with the question whether the handshake is complete.
pub proof fn lemma_timeout_is_handed_on(s: DriverState)
    requires
        s.phase is Waiting,
    ensures
        s.next(Event::TimedOut).phase.pending() == Action::FireTimeout,
        s.next(Event::TimedOut).next(Event::TimeoutHandled).phase.pending()
            == Action::QueryEstablished,
{
}

/// A stream is read until it is dry: data that was read is followed by
/// another read of the same stream, after the request to close where the
/// data ended the response.
pub proof fn lemma_stream_is_read_until_dry(s: DriverState, stream: u64, bytes: Vec<u8>, fin: bool)
    requires
        s.phase == (Phase::Reading { stream }),
    ensures
        ({
            let after = s.next(Event::StreamData { bytes, fin });
            ||| after.phase == (Phase::Reading { stream })
            ||| after.phase == (Phase::Completing { stream }) && after.next(
                Event::CloseHandled,
            ).phase == (Phase::Reading { stream })
        }),
{
}

/// After the engine has listed the readable streams, and as long as the
/// streams deliver data or run dry, the driver reads them in the order
/// listed: the stream being read and those that wait are always the rest of
/// that list.
pub proof fn lemma_streams_are_read_in_order(s: DriverState, streams: Vec<u64>)
    requires
        s.phase is Listing,
    ensures
        ({
            let after = s.next(Event::Readable { streams });
            if streams@.len() == 0 {
                after.phase is Producing
            } else {
                after.phase == (Phase::Reading { stream: streams@[0] }) && after.streams
                    == streams@.drop_first()
            }
        }),
{
}

} // verus!
