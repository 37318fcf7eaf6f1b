//! What holds of every session, proved from the step function.

use crate::framing::{
    lemma_be_i32_round_trip, spec_i32_be_bytes, FramingError, MAX_PAYLOAD_LEN,
};
use crate::relay::OUTPUT_CAPACITY;
use crate::session::{
    spec_downstream_open, spec_new_session, spec_step, spec_upstream_open, spec_zeroed,
    ActionView, Endpoint, EventView, SessionEnd, SessionError, SessionState, SessionView,
    StreamStep,
};
use vstd::prelude::*;

verus! {

/// The session after a run of events, each with the cancellation request as
/// it stood when the event was reported.
pub open spec fn spec_run(s: SessionView, events: Seq<(EventView, bool)>) -> SessionView
    decreases events.len(),
{
    if events.len() == 0 {
        s
    } else {
        spec_run(spec_step(s, events[0].0, events[0].1).0, events.drop_first())
    }
}

/// How many header reads the session asks for during a run of events.
pub open spec fn spec_reads_begun(s: SessionView, events: Seq<(EventView, bool)>) -> nat
    decreases events.len(),
{
    if events.len() == 0 {
        0
    } else {
        let (next, action) = spec_step(s, events[0].0, events[0].1);
        let here: nat = if action is ReadHeader {
            1
        } else {
            0
        };
        here + spec_reads_begun(next, events.drop_first())
    }
}

/// How many relay writes are reported complete, to a session that waits on
/// one, during a run of events.
pub open spec fn spec_relays_completed(s: SessionView, events: Seq<(EventView, bool)>) -> nat
    decreases events.len(),
{
    if events.len() == 0 {
        0
    } else {
        let next = spec_step(s, events[0].0, events[0].1).0;
        let here: nat = if s.state == SessionState::Streaming(StreamStep::Relay)
            && events[0].0 is Relayed {
            1
        } else {
            0
        };
        here + spec_relays_completed(next, events.drop_first())
    }
}

/// Whether the session holds its output buffer at the fixed capacity in
/// every state in which the buffer is not with the codec.
pub open spec fn spec_holds_output(s: SessionView) -> bool {
    match s.state {
        SessionState::AwaitingDownstream
        | SessionState::AwaitingUpstream
        | SessionState::Streaming(StreamStep::Header)
        | SessionState::Streaming(StreamStep::Payload(_))
        | SessionState::Streaming(StreamStep::Relay) => s.output.len() == OUTPUT_CAPACITY,
        _ => true,
    }
}

/// Cancellation boundary: a cancellation request changes nothing at a step
/// that does not report a completed relay write to a session waiting on one.
/// A read, a decode or a write that is under way ends by its own success or
/// failure.
pub proof fn lemma_cancellation_waits_for_frame_end(s: SessionView, event: EventView)
    requires
        !(s.state == SessionState::Streaming(StreamStep::Relay) && event is Relayed),
    ensures
        spec_step(s, event, true) == spec_step(s, event, false),
{
}

/// A session that was not cancelled before becomes cancelled only at the
/// step that reports a frame's relay write complete, and only on request.
pub proof fn lemma_cancelled_only_at_frame_end(
    s: SessionView,
    event: EventView,
    cancel_requested: bool,
)
    requires
        s.state != SessionState::Terminated(SessionEnd::Cancelled),
        spec_step(s, event, cancel_requested).0.state == SessionState::Terminated(
            SessionEnd::Cancelled,
        ),
    ensures
        s.state == SessionState::Streaming(StreamStep::Relay),
        event is Relayed,
        cancel_requested,
{
}

/// A cancellation request that stands when a frame's relay write is reported
/// complete ends the session, and both connections are closed.
pub proof fn lemma_cancellation_ends_session(s: SessionView)
    requires
        s.state == SessionState::Streaming(StreamStep::Relay),
    ensures
        spec_step(s, EventView::Relayed, true) == (
            SessionView { state: SessionState::Terminated(SessionEnd::Cancelled), ..s },
            ActionView::Shutdown { downstream: true, upstream: true, end: SessionEnd::Cancelled },
        ),
{
}

/// A step that ends a session asks to close exactly the connections that
/// stood, so that none stands once the session is over; a step that does not
/// end it asks to close none.
pub proof fn lemma_end_closes_connections(s: SessionView, event: EventView, cancel_requested: bool)
    requires
        !(s.state is Terminated),
    ensures
        ({
            let (next, action) = spec_step(s, event, cancel_requested);
            &&& next.state is Terminated <==> action is Shutdown
            &&& next.state matches SessionState::Terminated(end) ==> action
                == (ActionView::Shutdown {
                downstream: spec_downstream_open(s.state),
                upstream: spec_upstream_open(s.state),
                end,
            })
            &&& next.state is Terminated ==> !spec_downstream_open(next.state)
                && !spec_upstream_open(next.state)
        }),
{
}

/// Symmetric shutdown: when the connection to the remote producer fails
/// after the local consumer was accepted, the session ends with a connection
/// error and asks to close the local consumer's connection.
pub proof fn lemma_upstream_failure_closes_downstream(
    s: SessionView,
    event: EventView,
    cancel_requested: bool,
)
    requires
        s.state is AwaitingUpstream,
        !(event is UpstreamConnected),
    ensures
        spec_step(s, event, cancel_requested) == (
            SessionView {
                state: SessionState::Terminated(
                    SessionEnd::Failed(SessionError::Connection(Endpoint::Upstream)),
                ),
                ..s
            },
            ActionView::Shutdown {
                downstream: true,
                upstream: false,
                end: SessionEnd::Failed(SessionError::Connection(Endpoint::Upstream)),
            },
        ),
{
}

/// A session that is over stays as it is, whatever is reported to it.
pub proof fn lemma_terminated_is_final(s: SessionView, events: Seq<(EventView, bool)>)
    requires
        s.state is Terminated,
    ensures
        spec_run(s, events) == s,
        spec_reads_begun(s, events) == 0,
    decreases events.len(),
{
    if events.len() > 0 {
        lemma_terminated_is_final(s, events.drop_first());
    }
}

/// A header read is asked for only when the connection to the producer has
/// just been made, or when the relay write of the frame before is reported
/// complete and no cancellation is requested.
pub proof fn lemma_read_follows_relay(s: SessionView, event: EventView, cancel_requested: bool)
    requires
        spec_step(s, event, cancel_requested).1 is ReadHeader,
    ensures
        (s.state is AwaitingUpstream && event is UpstreamConnected) || (s.state
            == SessionState::Streaming(StreamStep::Relay) && event is Relayed
            && !cancel_requested),
{
}

/// Sequential bound: over any run of events, a session that is streaming or
/// over asks for no more header reads than relay writes were completed, and
/// a session that is not yet streaming for at most one more. So the read of a
/// frame never begins before the relay write of the frame before it is
/// complete.
pub proof fn lemma_one_frame_in_flight(s: SessionView, events: Seq<(EventView, bool)>)
    ensures
        spec_reads_begun(s, events) <= spec_relays_completed(s, events) + (if s.state
            is AwaitingDownstream || s.state is AwaitingUpstream {
            1nat
        } else {
            0nat
        }),
    decreases events.len(),
{
    if events.len() > 0 {
        let next = spec_step(s, events[0].0, events[0].1).0;
        lemma_one_frame_in_flight(next, events.drop_first());
    }
}

/// A new session holds its output buffer at the fixed capacity.
pub proof fn lemma_new_session_holds_output(host: Seq<char>, port: u16, relay_port: u16)
    ensures
        spec_holds_output(spec_new_session(host, port, relay_port)),
        spec_new_session(host, port, relay_port).state is AwaitingDownstream,
{
}

/// The output buffer keeps its fixed capacity: a step takes a session that
/// holds it so to one that holds it so.
pub proof fn lemma_output_capacity_is_kept(
    s: SessionView,
    event: EventView,
    cancel_requested: bool,
)
    requires
        spec_holds_output(s),
    ensures
        spec_holds_output(spec_step(s, event, cancel_requested).0),
{
}

/// A frame on the wire reaches the codec whole: a session that awaits a
/// header and is given the header of a payload and then the payload asks
/// first for a buffer of the payload's length to be filled, then for exactly
/// that payload to be decoded into its output buffer.
pub proof fn lemma_frame_reaches_codec(s: SessionView, payload: Seq<u8>, c1: bool, c2: bool)
    requires
        s.state == SessionState::Streaming(StreamStep::Header),
        payload.len() <= MAX_PAYLOAD_LEN,
    ensures
        ({
            let header = spec_i32_be_bytes(payload.len() as int);
            let (awaiting, first) = spec_step(s, EventView::HeaderRead(header), c1);
            let (decoding, second) = spec_step(awaiting, EventView::PayloadRead(payload), c2);
            &&& first == ActionView::ReadPayload { buffer: spec_zeroed(payload.len()) }
            &&& second == ActionView::Decode { packet: payload, output: s.output }
            &&& decoding.state == SessionState::Streaming(StreamStep::Decode)
        }),
{
    lemma_be_i32_round_trip(payload.len() as int);
}

/// A payload shorter or longer than its header declared never reaches the
/// codec: the session ends with a framing error.
pub proof fn lemma_short_payload_is_refused(
    s: SessionView,
    declared: usize,
    payload: Seq<u8>,
    cancel_requested: bool,
)
    requires
        s.state == SessionState::Streaming(StreamStep::Payload(declared)),
        payload.len() != declared,
    ensures
        spec_step(s, EventView::PayloadRead(payload), cancel_requested).0.state
            == SessionState::Terminated(
            SessionEnd::Failed(SessionError::Framing(FramingError::TruncatedPayload)),
        ),
        spec_step(s, EventView::PayloadRead(payload), cancel_requested).1 is Shutdown,
{
}

} // verus!
