//! The session: one decode-and-relay run, written as a machine that is told
//! what happened and answers what to do next.
//!
//! The machine owns the two buffers and decides; whoever drives it owns the
//! sockets and the codec, performs each [`Action`] and reports back with an
//! [`Event`].

use crate::framing::{payload_length, spec_payload_length, FramingError};
use crate::relay::{frame_bytes, spec_pcm_bytes, spec_valid_samples, OUTPUT_CAPACITY};
use vstd::prelude::*;

verus! {

/// Loopback port on which the local consumer is awaited unless another is
/// asked for.
pub const RELAY_PORT: u16 = 12345;

/// One of the session's two connections.
#[derive(Clone, Copy, Debug, PartialEq, Eq, Structural)]
pub enum Endpoint {
    /// The local consumer's connection, which the session accepts.
    Downstream,
    /// The connection to the remote producer, which the session opens.
    Upstream,
}

/// Why a session failed.
#[derive(Clone, Copy, Debug, PartialEq, Eq, Structural)]
pub enum SessionError {
    /// The upstream bytes did not hold a whole frame.
    Framing(FramingError),
    /// The codec refused a payload, or reported more samples than the output
    /// buffer holds.
    Decode,
    /// A connection could not be established.
    Connection(Endpoint),
    /// The local consumer did not take the decoded samples.
    Relay,
}

/// How a session ended.
#[derive(Clone, Copy, Debug, PartialEq, Eq, Structural)]
pub enum SessionEnd {
    /// Cancellation was requested and seen between two frames.
    Cancelled,
    /// A step failed.
    Failed(SessionError),
}

/// The operation that a streaming session is waiting on.
#[derive(Clone, Copy, Debug, PartialEq, Eq, Structural)]
pub enum StreamStep {
    /// The read of a frame header.
    Header,
    /// The read of a payload of the given length.
    Payload(usize),
    /// The codec's work on the payload.
    Decode,
    /// The write of the decoded samples to the local consumer.
    Relay,
}

/// Where a session stands.
#[derive(Clone, Copy, Debug, PartialEq, Eq, Structural)]
pub enum SessionState {
    /// Waiting for the local consumer to connect.
    AwaitingDownstream,
    /// Waiting for the connection to the remote producer.
    AwaitingUpstream,
    /// Both connections stand; frames are read, decoded and relayed.
    Streaming(StreamStep),
    /// Over. Both connections are closed.
    Terminated(SessionEnd),
}

/// What the driver reports to the session.
#[derive(Debug, PartialEq, Eq)]
pub enum Event {
    /// The local consumer has connected.
    DownstreamAccepted,
    /// The connection to the remote producer stands.
    UpstreamConnected,
    /// Four header bytes were read from upstream.
    HeaderRead([u8; 4]),
    /// The buffer handed out for the payload was filled from upstream.
    PayloadRead(Vec<u8>),
    /// The codec decoded `packet` into `output` and produced
    /// `channel_samples` samples for each channel.
    Decoded { packet: Vec<u8>, output: Vec<i16>, channel_samples: usize },
    /// The bytes handed out for the local consumer were written.
    Relayed,
    /// The operation that the session was waiting on failed.
    Failed,
}

/// What the session asks the driver to do.
#[derive(Debug, PartialEq, Eq)]
pub enum Action {
    /// Bind the loopback port and accept one connection.
    AcceptDownstream { port: u16 },
    /// Connect to the remote producer, and let no read from it block longer
    /// than the given number of milliseconds, if one is given.
    ConnectUpstream { host: String, port: u16, read_timeout_ms: Option<u32> },
    /// Read the four bytes of a frame header from upstream.
    ReadHeader,
    /// Fill the whole buffer from upstream.
    ReadPayload { buffer: Vec<u8> },
    /// Decode `packet` into `output`.
    Decode { packet: Vec<u8>, output: Vec<i16> },
    /// Write the bytes to the local consumer.
    Relay { bytes: Vec<u8> },
    /// Close the named connections, in both directions; the session is over.
    Shutdown { downstream: bool, upstream: bool, end: SessionEnd },
    /// Nothing: the session was over before.
    Done,
}

/// An [`Event`] with its buffers as sequences.
pub enum EventView {
    DownstreamAccepted,
    UpstreamConnected,
    HeaderRead(Seq<u8>),
    PayloadRead(Seq<u8>),
    Decoded { packet: Seq<u8>, output: Seq<i16>, channel_samples: usize },
    Relayed,
    Failed,
}

/// An [`Action`] with its buffers as sequences.
pub enum ActionView {
    AcceptDownstream { port: u16 },
    ConnectUpstream { host: Seq<char>, port: u16, read_timeout_ms: Option<u32> },
    ReadHeader,
    ReadPayload { buffer: Seq<u8> },
    Decode { packet: Seq<u8>, output: Seq<i16> },
    Relay { bytes: Seq<u8> },
    Shutdown { downstream: bool, upstream: bool, end: SessionEnd },
    Done,
}

/// A session as a value: its state, the buffers it holds, and where it
/// connects.
pub struct SessionView {
    pub state: SessionState,
    /// The input buffer; empty while the driver holds it.
    pub input: Seq<u8>,
    /// The output buffer; empty while the driver holds it.
    pub output: Seq<i16>,
    pub host: Seq<char>,
    pub port: u16,
    pub relay_port: u16,
    /// The longest that a read from the producer may block, in milliseconds.
    pub read_timeout_ms: Option<u32>,
}

impl View for Event {
    type V = EventView;

    open spec fn view(&self) -> EventView {
        match *self {
            Event::DownstreamAccepted => EventView::DownstreamAccepted,
            Event::UpstreamConnected => EventView::UpstreamConnected,
            Event::HeaderRead(header) => EventView::HeaderRead(header@),
            Event::PayloadRead(payload) => EventView::PayloadRead(payload@),
            Event::Decoded { packet, output, channel_samples } => EventView::Decoded {
                packet: packet@,
                output: output@,
                channel_samples,
            },
            Event::Relayed => EventView::Relayed,
            Event::Failed => EventView::Failed,
        }
    }
}

impl View for Action {
    type V = ActionView;

    open spec fn view(&self) -> ActionView {
        match *self {
            Action::AcceptDownstream { port } => ActionView::AcceptDownstream { port },
            Action::ConnectUpstream { host, port, read_timeout_ms } => ActionView::ConnectUpstream {
                host: host@,
                port,
                read_timeout_ms,
            },
            Action::ReadHeader => ActionView::ReadHeader,
            Action::ReadPayload { buffer } => ActionView::ReadPayload { buffer: buffer@ },
            Action::Decode { packet, output } => ActionView::Decode {
                packet: packet@,
                output: output@,
            },
            Action::Relay { bytes } => ActionView::Relay { bytes: bytes@ },
            Action::Shutdown { downstream, upstream, end } => ActionView::Shutdown {
                downstream,
                upstream,
                end,
            },
            Action::Done => ActionView::Done,
        }
    }
}

/// Whether the local consumer's connection stands in a state.
pub open spec fn spec_downstream_open(state: SessionState) -> bool {
    state is AwaitingUpstream || state is Streaming
}

/// Whether the connection to the remote producer stands in a state.
pub open spec fn spec_upstream_open(state: SessionState) -> bool {
    state is Streaming
}

/// The error that a failure is counted as: that of the operation which the
/// session is waiting on. A session that is over waits on none.
pub open spec fn spec_failure_of(state: SessionState) -> SessionError
    recommends
        !(state is Terminated),
{
    match state {
        SessionState::AwaitingDownstream => SessionError::Connection(Endpoint::Downstream),
        SessionState::AwaitingUpstream => SessionError::Connection(Endpoint::Upstream),
        SessionState::Streaming(StreamStep::Header) => SessionError::Framing(
            FramingError::TruncatedHeader,
        ),
        SessionState::Streaming(StreamStep::Payload(_)) => SessionError::Framing(
            FramingError::TruncatedPayload,
        ),
        SessionState::Streaming(StreamStep::Decode) => SessionError::Decode,
        SessionState::Streaming(StreamStep::Relay) => SessionError::Relay,
        SessionState::Terminated(_) => arbitrary(),
    }
}

/// The end of a session: it goes to `Terminated`, and the connections that
/// stand are to be closed.
pub open spec fn spec_finish(s: SessionView, end: SessionEnd) -> (SessionView, ActionView) {
    (
        SessionView { state: SessionState::Terminated(end), ..s },
        ActionView::Shutdown {
            downstream: spec_downstream_open(s.state),
            upstream: spec_upstream_open(s.state),
            end,
        },
    )
}

/// The end of a session by the failure of the operation it was waiting on.
pub open spec fn spec_fail(s: SessionView) -> (SessionView, ActionView)
    recommends
        !(s.state is Terminated),
{
    spec_finish(s, SessionEnd::Failed(spec_failure_of(s.state)))
}

/// A buffer of `n` zero bytes.
pub open spec fn spec_zeroed(n: nat) -> Seq<u8> {
    Seq::new(n, |i: int| 0u8)
}

/// The answer to a header: its payload is awaited in the session's input
/// buffer, or the header is refused.
pub open spec fn spec_on_header(s: SessionView, header: Seq<u8>) -> (SessionView, ActionView)
    recommends
        s.state == SessionState::Streaming(StreamStep::Header),
{
    match spec_payload_length(header) {
        Ok(n) => (
            SessionView {
                state: SessionState::Streaming(StreamStep::Payload(n as usize)),
                input: Seq::<u8>::empty(),
                ..s
            },
            ActionView::ReadPayload { buffer: spec_zeroed(n) },
        ),
        Err(e) => spec_finish(s, SessionEnd::Failed(SessionError::Framing(e))),
    }
}

/// The answer to a payload: if it has the declared length it goes to the
/// codec together with the session's output buffer.
pub open spec fn spec_on_payload(s: SessionView, declared: usize, payload: Seq<u8>) -> (
    SessionView,
    ActionView,
)
    recommends
        s.state == SessionState::Streaming(StreamStep::Payload(declared)),
{
    if payload.len() == declared {
        (
            SessionView {
                state: SessionState::Streaming(StreamStep::Decode),
                output: Seq::<i16>::empty(),
                ..s
            },
            ActionView::Decode { packet: payload, output: s.output },
        )
    } else {
        spec_fail(s)
    }
}

/// The answer to the codec: the session takes both buffers back, and the
/// valid samples go to the local consumer. A buffer that is not of the fixed
/// capacity, or a count that it cannot hold, is a decode failure.
pub open spec fn spec_on_decoded(
    s: SessionView,
    packet: Seq<u8>,
    output: Seq<i16>,
    channel_samples: usize,
) -> (SessionView, ActionView)
    recommends
        s.state == SessionState::Streaming(StreamStep::Decode),
{
    if output.len() == OUTPUT_CAPACITY {
        match spec_valid_samples(channel_samples, output.len()) {
            Some(n) => (
                SessionView {
                    state: SessionState::Streaming(StreamStep::Relay),
                    input: packet,
                    output,
                    ..s
                },
                ActionView::Relay { bytes: spec_pcm_bytes(output.subrange(0, n as int)) },
            ),
            None => spec_fail(s),
        }
    } else {
        spec_fail(s)
    }
}

/// The answer to a completed relay write: the frame is done, and only here
/// is a cancellation request looked at.
pub open spec fn spec_on_relayed(s: SessionView, cancel_requested: bool) -> (
    SessionView,
    ActionView,
)
    recommends
        s.state == SessionState::Streaming(StreamStep::Relay),
{
    if cancel_requested {
        spec_finish(s, SessionEnd::Cancelled)
    } else {
        (
            SessionView { state: SessionState::Streaming(StreamStep::Header), ..s },
            ActionView::ReadHeader,
        )
    }
}

/// One step of the session: the state after an event, and what to do next.
///
/// Each state waits on one operation. The event that reports its success
/// moves the session on; any other event counts as its failure and ends the
/// session. A session that is over stays as it is.
pub open spec fn spec_step(s: SessionView, event: EventView, cancel_requested: bool) -> (
    SessionView,
    ActionView,
) {
    match (s.state, event) {
        (SessionState::Terminated(_), _) => (s, ActionView::Done),
        (SessionState::AwaitingDownstream, EventView::DownstreamAccepted) => (
            SessionView { state: SessionState::AwaitingUpstream, ..s },
            ActionView::ConnectUpstream {
                host: s.host,
                port: s.port,
                read_timeout_ms: s.read_timeout_ms,
            },
        ),
        (SessionState::AwaitingUpstream, EventView::UpstreamConnected) => (
            SessionView { state: SessionState::Streaming(StreamStep::Header), ..s },
            ActionView::ReadHeader,
        ),
        (SessionState::Streaming(StreamStep::Header), EventView::HeaderRead(header)) => {
            spec_on_header(s, header)
        },
        (
            SessionState::Streaming(StreamStep::Payload(declared)),
            EventView::PayloadRead(payload),
        ) => spec_on_payload(s, declared, payload),
        (
            SessionState::Streaming(StreamStep::Decode),
            EventView::Decoded { packet, output, channel_samples },
        ) => spec_on_decoded(s, packet, output, channel_samples),
        (SessionState::Streaming(StreamStep::Relay), EventView::Relayed) => spec_on_relayed(
            s,
            cancel_requested,
        ),
        _ => spec_fail(s),
    }
}

/// What a session asks for when it is started: the local consumer, if the
/// session is new; nothing otherwise.
pub open spec fn spec_start(s: SessionView) -> ActionView {
    if s.state is AwaitingDownstream {
        ActionView::AcceptDownstream { port: s.relay_port }
    } else {
        ActionView::Done
    }
}

/// A new session to the given producer, with the local consumer awaited on
/// the given port.
pub open spec fn spec_new_session(host: Seq<char>, port: u16, relay_port: u16) -> SessionView {
    SessionView {
        state: SessionState::AwaitingDownstream,
        input: Seq::<u8>::empty(),
        output: Seq::new(OUTPUT_CAPACITY as nat, |i: int| 0i16),
        host,
        port,
        relay_port,
        read_timeout_ms: None,
    }
}

/// The limit that a number of milliseconds sets on a read: zero sets none.
pub open spec fn spec_read_timeout(millis: u32) -> Option<u32> {
    if millis == 0 {
        None
    } else {
        Some(millis)
    }
}

/// The line for the diagnostics on how a session ended.
pub open spec fn spec_end_message(end: SessionEnd) -> &'static str {
    match end {
        SessionEnd::Cancelled => "Quit detected.",
        SessionEnd::Failed(SessionError::Framing(FramingError::TruncatedHeader)) => {
            "Packet byte count read error."
        },
        SessionEnd::Failed(SessionError::Framing(FramingError::NegativeLength)) => {
            "Packet byte count is negative."
        },
        SessionEnd::Failed(SessionError::Framing(FramingError::TruncatedPayload)) => {
            "Packet read error."
        },
        SessionEnd::Failed(SessionError::Decode) => "Packet decode error.",
        SessionEnd::Failed(SessionError::Connection(Endpoint::Downstream)) => {
            "Audio thread connection error."
        },
        SessionEnd::Failed(SessionError::Connection(Endpoint::Upstream)) => {
            "Server connection error."
        },
        SessionEnd::Failed(SessionError::Relay) => "PCM data send error.",
    }
}

impl SessionEnd {
    /// The line for the diagnostics on how the session ended.
    pub fn message(&self) -> (m: &'static str)
        ensures
            m == spec_end_message(*self),
    {
        match self {
            SessionEnd::Cancelled => "Quit detected.",
            SessionEnd::Failed(SessionError::Framing(FramingError::TruncatedHeader)) => {
                "Packet byte count read error."
            },
            SessionEnd::Failed(SessionError::Framing(FramingError::NegativeLength)) => {
                "Packet byte count is negative."
            },
            SessionEnd::Failed(SessionError::Framing(FramingError::TruncatedPayload)) => {
                "Packet read error."
            },
            SessionEnd::Failed(SessionError::Decode) => "Packet decode error.",
            SessionEnd::Failed(SessionError::Connection(Endpoint::Downstream)) => {
                "Audio thread connection error."
            },
            SessionEnd::Failed(SessionError::Connection(Endpoint::Upstream)) => {
                "Server connection error."
            },
            SessionEnd::Failed(SessionError::Relay) => "PCM data send error.",
        }
    }
}

/// Decodes the Opus stream of a remote producer for a local consumer: the
/// state of one session and its two buffers.
pub struct StreamDecoder {
    decoder_input_buffer: Vec<u8>,
    decoder_output_buffer: Vec<i16>,
    /// Address of the remote producer.
    address: String,
    /// The remote producer's TCP port.
    port: u16,
    /// Loopback port for the local consumer.
    relay_port: u16,
    /// The longest that a read from the producer may block, in milliseconds.
    read_timeout_ms: Option<u32>,
    state: SessionState,
}

impl View for StreamDecoder {
    type V = SessionView;

    closed spec fn view(&self) -> SessionView {
        SessionView {
            state: self.state,
            input: self.decoder_input_buffer@,
            output: self.decoder_output_buffer@,
            host: self.address@,
            port: self.port,
            relay_port: self.relay_port,
            read_timeout_ms: self.read_timeout_ms,
        }
    }
}

impl StreamDecoder {
    /// A new session to the producer at `address` and `port`, with the local
    /// consumer awaited on [`RELAY_PORT`].
    pub fn new(address: String, port: u16) -> (r: Self)
        ensures
            r@ == spec_new_session(address@, port, RELAY_PORT),
    {
        Self::with_relay_port(address, port, RELAY_PORT)
    }

    /// A new session to the producer at `address` and `port`, with the local
    /// consumer awaited on `relay_port`.
    pub fn with_relay_port(address: String, port: u16, relay_port: u16) -> (r: Self)
        ensures
            r@ == spec_new_session(address@, port, relay_port),
    {
        let r = StreamDecoder {
            decoder_input_buffer: Vec::new(),
            decoder_output_buffer: vec![0i16; OUTPUT_CAPACITY],
            address,
            port,
            relay_port,
            read_timeout_ms: None,
            state: SessionState::AwaitingDownstream,
        };
        assert(r@.output =~= spec_new_session(address@, port, relay_port).output);
        r
    }

    /// Limits how long a read from the producer may block, in milliseconds;
    /// zero sets no limit. The limit is handed out when the session asks for
    /// the connection to the producer.
    pub fn set_read_timeout(&mut self, millis: u32)
        ensures
            final(self)@ == (SessionView {
                read_timeout_ms: spec_read_timeout(millis),
                ..old(self)@
            }),
    {
        self.read_timeout_ms = if millis == 0 {
            None
        } else {
            Some(millis)
        };
    }

    /// Where the session stands.
    pub fn state(&self) -> (state: SessionState)
        ensures
            state == self@.state,
    {
        self.state
    }

    /// Starts the session: asks for the local consumer's connection. On a
    /// session that was started before and has moved on, asks for nothing.
    pub fn start(&mut self) -> (action: Action)
        ensures
            final(self)@ == old(self)@,
            action@ == spec_start(old(self)@),
    {
        match self.state {
            SessionState::AwaitingDownstream => Action::AcceptDownstream { port: self.relay_port },
            _ => Action::Done,
        }
    }

    /// Ends the session with `end` and asks to close the connections that
    /// stand.
    fn finish(&mut self, end: SessionEnd) -> (action: Action)
        ensures
            final(self)@ == spec_finish(old(self)@, end).0,
            action@ == spec_finish(old(self)@, end).1,
    {
        let (downstream, upstream) = match self.state {
            SessionState::AwaitingUpstream => (true, false),
            SessionState::Streaming(_) => (true, true),
            _ => (false, false),
        };
        self.state = SessionState::Terminated(end);
        Action::Shutdown { downstream, upstream, end }
    }

    /// Ends the session by the failure of the operation it was waiting on.
    fn fail(&mut self) -> (action: Action)
        requires
            !(old(self)@.state is Terminated),
        ensures
            final(self)@ == spec_fail(old(self)@).0,
            action@ == spec_fail(old(self)@).1,
    {
        let error = match self.state {
            SessionState::AwaitingDownstream => SessionError::Connection(Endpoint::Downstream),
            SessionState::AwaitingUpstream => SessionError::Connection(Endpoint::Upstream),
            SessionState::Streaming(StreamStep::Header) => SessionError::Framing(
                FramingError::TruncatedHeader,
            ),
            SessionState::Streaming(StreamStep::Payload(_)) => SessionError::Framing(
                FramingError::TruncatedPayload,
            ),
            SessionState::Streaming(StreamStep::Decode) => SessionError::Decode,
            SessionState::Streaming(StreamStep::Relay) => SessionError::Relay,
            SessionState::Terminated(_) => unreached(),
        };
        self.finish(SessionEnd::Failed(error))
    }

    /// Answers a frame header.
    fn on_header(&mut self, header: &[u8; 4]) -> (action: Action)
        requires
            old(self)@.state == SessionState::Streaming(StreamStep::Header),
        ensures
            final(self)@ == spec_on_header(old(self)@, header@).0,
            action@ == spec_on_header(old(self)@, header@).1,
    {
        match payload_length(header) {
            Ok(n) => {
                let mut buffer: Vec<u8> = Vec::new();
                core::mem::swap(&mut self.decoder_input_buffer, &mut buffer);
                buffer.clear();
                buffer.resize(n, 0u8);
                self.state = SessionState::Streaming(StreamStep::Payload(n));
                assert(buffer@ =~= spec_zeroed(n as nat));
                Action::ReadPayload { buffer }
            },
            Err(e) => self.finish(SessionEnd::Failed(SessionError::Framing(e))),
        }
    }

    /// Answers a payload of which `declared` bytes were awaited.
    fn on_payload(&mut self, declared: usize, payload: Vec<u8>) -> (action: Action)
        requires
            old(self)@.state == SessionState::Streaming(StreamStep::Payload(declared)),
        ensures
            final(self)@ == spec_on_payload(old(self)@, declared, payload@).0,
            action@ == spec_on_payload(old(self)@, declared, payload@).1,
    {
        if payload.len() == declared {
            let mut output: Vec<i16> = Vec::new();
            core::mem::swap(&mut self.decoder_output_buffer, &mut output);
            self.state = SessionState::Streaming(StreamStep::Decode);
            Action::Decode { packet: payload, output }
        } else {
            self.fail()
        }
    }

    /// Answers the codec's result.
    fn on_decoded(&mut self, packet: Vec<u8>, output: Vec<i16>, channel_samples: usize) -> (action:
        Action)
        requires
            old(self)@.state == SessionState::Streaming(StreamStep::Decode),
        ensures
            final(self)@ == spec_on_decoded(old(self)@, packet@, output@, channel_samples).0,
            action@ == spec_on_decoded(old(self)@, packet@, output@, channel_samples).1,
    {
        if output.len() != OUTPUT_CAPACITY {
            return self.fail();
        }
        match frame_bytes(output.as_slice(), channel_samples) {
            Some(bytes) => {
                self.decoder_input_buffer = packet;
                self.decoder_output_buffer = output;
                self.state = SessionState::Streaming(StreamStep::Relay);
                Action::Relay { bytes }
            },
            None => self.fail(),
        }
    }

    /// Answers a completed relay write.
    fn on_relayed(&mut self, cancel_requested: bool) -> (action: Action)
        requires
            old(self)@.state == SessionState::Streaming(StreamStep::Relay),
        ensures
            final(self)@ == spec_on_relayed(old(self)@, cancel_requested).0,
            action@ == spec_on_relayed(old(self)@, cancel_requested).1,
    {
        if cancel_requested {
            self.finish(SessionEnd::Cancelled)
        } else {
            self.state = SessionState::Streaming(StreamStep::Header);
            Action::ReadHeader
        }
    }

    /// Takes one step: tells the session what happened and whether
    /// cancellation is requested, and learns what to do next.
    ///
    /// The cancellation request is looked at only when a frame has been
    /// relayed; at every other step it changes nothing.
    pub fn step(&mut self, event: Event, cancel_requested: bool) -> (action: Action)
        ensures
            final(self)@ == spec_step(old(self)@, event@, cancel_requested).0,
            action@ == spec_step(old(self)@, event@, cancel_requested).1,
    {
        match (self.state, event) {
            (SessionState::Terminated(_), _) => Action::Done,
            (SessionState::AwaitingDownstream, Event::DownstreamAccepted) => {
                self.state = SessionState::AwaitingUpstream;
                Action::ConnectUpstream {
                    host: self.address.clone(),
                    port: self.port,
                    read_timeout_ms: self.read_timeout_ms,
                }
            },
            (SessionState::AwaitingUpstream, Event::UpstreamConnected) => {
                self.state = SessionState::Streaming(StreamStep::Header);
                Action::ReadHeader
            },
            (SessionState::Streaming(StreamStep::Header), Event::HeaderRead(header)) => {
                self.on_header(&header)
            },
            (
                SessionState::Streaming(StreamStep::Payload(declared)),
                Event::PayloadRead(payload),
            ) => self.on_payload(declared, payload),
            (
                SessionState::Streaming(StreamStep::Decode),
                Event::Decoded { packet, output, channel_samples },
            ) => self.on_decoded(packet, output, channel_samples),
            (SessionState::Streaming(StreamStep::Relay), Event::Relayed) => self.on_relayed(
                cancel_requested,
            ),
            _ => self.fail(),
        }
    }
}

} // verus!
