use jonect_stream::framing::{encode_frame, FramingError};
use jonect_stream::relay::OUTPUT_CAPACITY;
use jonect_stream::session::{
    Action, Endpoint, Event, SessionEnd, SessionError, SessionState, StreamDecoder, StreamStep,
    RELAY_PORT,
};

fn streaming_session() -> StreamDecoder {
    let mut session = StreamDecoder::new(String::from("192.168.1.20"), 8082);
    assert_eq!(session.start(), Action::AcceptDownstream { port: RELAY_PORT });
    assert_eq!(
        session.step(Event::DownstreamAccepted, false),
        Action::ConnectUpstream {
            host: String::from("192.168.1.20"),
            port: 8082,
            read_timeout_ms: None,
        }
    );
    assert_eq!(session.step(Event::UpstreamConnected, false), Action::ReadHeader);
    session
}

fn failed(error: SessionError) -> SessionState {
    SessionState::Terminated(SessionEnd::Failed(error))
}

fn header_of(wire: &[u8]) -> [u8; 4] {
    [wire[0], wire[1], wire[2], wire[3]]
}

/// Feeds one frame through a streaming session with a codec that fills the
/// first samples of the output and reports `channel_samples`.
fn relay_one_frame(
    session: &mut StreamDecoder,
    payload: &[u8],
    samples: &[i16],
    channel_samples: usize,
) -> Action {
    let wire = encode_frame(payload).unwrap();
    let buffer = match session.step(Event::HeaderRead(header_of(&wire)), false) {
        Action::ReadPayload { buffer } => buffer,
        other => panic!("no payload read asked for: {:?}", other),
    };
    assert_eq!(buffer, vec![0u8; payload.len()]);
    let (packet, mut output) = match session.step(Event::PayloadRead(wire[4..].to_vec()), false)
    {
        Action::Decode { packet, output } => (packet, output),
        other => panic!("no decode asked for: {:?}", other),
    };
    assert_eq!(packet, payload);
    assert_eq!(output.len(), OUTPUT_CAPACITY);
    output[..samples.len()].copy_from_slice(samples);
    session.step(Event::Decoded { packet, output, channel_samples }, false)
}

#[test]
fn relay_port_is_the_well_known_one() {
    assert_eq!(RELAY_PORT, 12345);
}

#[test]
fn new_session_awaits_downstream() {
    let mut session = StreamDecoder::new(String::from("10.0.0.1"), 9000);
    assert_eq!(session.state(), SessionState::AwaitingDownstream);
    assert_eq!(session.start(), Action::AcceptDownstream { port: 12345 });
    assert_eq!(session.state(), SessionState::AwaitingDownstream);
}

#[test]
fn relay_port_can_be_chosen() {
    let mut session = StreamDecoder::with_relay_port(String::from("10.0.0.1"), 9000, 40001);
    assert_eq!(session.start(), Action::AcceptDownstream { port: 40001 });
}

#[test]
fn start_asks_nothing_of_a_session_under_way() {
    let mut session = streaming_session();
    assert_eq!(session.start(), Action::Done);
    assert_eq!(session.state(), SessionState::Streaming(StreamStep::Header));
}

#[test]
fn session_walks_through_its_states() {
    let mut session = StreamDecoder::new(String::from("example.org"), 1234);
    assert_eq!(session.state(), SessionState::AwaitingDownstream);
    session.step(Event::DownstreamAccepted, false);
    assert_eq!(session.state(), SessionState::AwaitingUpstream);
    session.step(Event::UpstreamConnected, false);
    assert_eq!(session.state(), SessionState::Streaming(StreamStep::Header));
    session.step(Event::HeaderRead([0, 0, 0, 3]), false);
    assert_eq!(session.state(), SessionState::Streaming(StreamStep::Payload(3)));
    let action = session.step(Event::PayloadRead(vec![1, 2, 3]), false);
    assert_eq!(session.state(), SessionState::Streaming(StreamStep::Decode));
    let (packet, output) = match action {
        Action::Decode { packet, output } => (packet, output),
        other => panic!("no decode asked for: {:?}", other),
    };
    session.step(Event::Decoded { packet, output, channel_samples: 120 }, false);
    assert_eq!(session.state(), SessionState::Streaming(StreamStep::Relay));
    assert_eq!(session.step(Event::Relayed, false), Action::ReadHeader);
    assert_eq!(session.state(), SessionState::Streaming(StreamStep::Header));
}

#[test]
fn decoded_samples_are_relayed_little_endian() {
    let mut session = streaming_session();
    let action = relay_one_frame(&mut session, &[0xaa, 0xbb], &[0x0102, -1, 0x0304, -2], 2);
    assert_eq!(
        action,
        Action::Relay { bytes: vec![0x02, 0x01, 0xff, 0xff, 0x04, 0x03, 0xfe, 0xff] }
    );
}

#[test]
fn full_frame_relays_all_samples() {
    let mut session = streaming_session();
    let samples: Vec<i16> = (0..240).map(|i| (i - 120) as i16).collect();
    let action = relay_one_frame(&mut session, &[1, 2, 3], &samples, 120);
    let expected: Vec<u8> = samples.iter().flat_map(|s| s.to_le_bytes()).collect();
    assert_eq!(expected.len(), 480);
    assert_eq!(action, Action::Relay { bytes: expected });
}

#[test]
fn frame_without_samples_relays_nothing() {
    let mut session = streaming_session();
    let action = relay_one_frame(&mut session, &[1], &[], 0);
    assert_eq!(action, Action::Relay { bytes: vec![] });
    assert_eq!(session.step(Event::Relayed, false), Action::ReadHeader);
}

#[test]
fn buffers_are_used_again_for_the_next_frame() {
    let mut session = streaming_session();
    relay_one_frame(&mut session, &[1, 2, 3, 4, 5], &[7, 7], 1);
    assert_eq!(session.step(Event::Relayed, false), Action::ReadHeader);
    let buffer = match session.step(Event::HeaderRead([0, 0, 0, 2]), false) {
        Action::ReadPayload { buffer } => buffer,
        other => panic!("no payload read asked for: {:?}", other),
    };
    assert_eq!(buffer, vec![0, 0]);
    assert!(buffer.capacity() >= 5);
    match session.step(Event::PayloadRead(vec![9, 9]), false) {
        Action::Decode { packet, output } => {
            assert_eq!(packet, vec![9, 9]);
            assert_eq!(output.len(), OUTPUT_CAPACITY);
            assert_eq!(&output[..2], &[7, 7]);
        }
        other => panic!("no decode asked for: {:?}", other),
    }
}

#[test]
fn empty_payload_reaches_the_codec() {
    let mut session = streaming_session();
    assert_eq!(
        session.step(Event::HeaderRead([0, 0, 0, 0]), false),
        Action::ReadPayload { buffer: vec![] }
    );
    match session.step(Event::PayloadRead(vec![]), false) {
        Action::Decode { packet, output } => {
            assert!(packet.is_empty());
            assert_eq!(output, vec![0i16; OUTPUT_CAPACITY]);
        }
        other => panic!("no decode asked for: {:?}", other),
    }
}

#[test]
fn invalid_opus_packet_ends_session_with_decode_error() {
    let wire: [u8; 8] = [0x00, 0x00, 0x00, 0x04, 0xde, 0xad, 0xbe, 0xef];
    let mut session = streaming_session();
    assert_eq!(
        session.step(Event::HeaderRead(header_of(&wire)), false),
        Action::ReadPayload { buffer: vec![0, 0, 0, 0] }
    );
    match session.step(Event::PayloadRead(wire[4..].to_vec()), false) {
        Action::Decode { packet, output: _ } => assert_eq!(packet, vec![0xde, 0xad, 0xbe, 0xef]),
        other => panic!("no decode asked for: {:?}", other),
    }
    // The codec refuses the packet.
    assert_eq!(
        session.step(Event::Failed, false),
        Action::Shutdown {
            downstream: true,
            upstream: true,
            end: SessionEnd::Failed(SessionError::Decode),
        }
    );
    assert_eq!(session.state(), failed(SessionError::Decode));
    assert_eq!(session.step(Event::Relayed, false), Action::Done);
}

#[test]
fn more_samples_than_capacity_is_a_decode_error() {
    let mut session = streaming_session();
    let action = relay_one_frame(&mut session, &[1, 2], &[], 121);
    assert_eq!(
        action,
        Action::Shutdown {
            downstream: true,
            upstream: true,
            end: SessionEnd::Failed(SessionError::Decode),
        }
    );
    assert_eq!(session.state(), failed(SessionError::Decode));
}

#[test]
fn output_of_another_length_is_a_decode_error() {
    let mut session = streaming_session();
    session.step(Event::HeaderRead([0, 0, 0, 1]), false);
    session.step(Event::PayloadRead(vec![1]), false);
    let action = session.step(
        Event::Decoded { packet: vec![1], output: vec![0i16; 480], channel_samples: 120 },
        false,
    );
    assert_eq!(
        action,
        Action::Shutdown {
            downstream: true,
            upstream: true,
            end: SessionEnd::Failed(SessionError::Decode),
        }
    );
}

#[test]
fn downstream_failure_ends_session_with_nothing_to_close() {
    let mut session = StreamDecoder::new(String::from("10.0.0.1"), 9000);
    assert_eq!(
        session.step(Event::Failed, false),
        Action::Shutdown {
            downstream: false,
            upstream: false,
            end: SessionEnd::Failed(SessionError::Connection(Endpoint::Downstream)),
        }
    );
    assert_eq!(session.state(), failed(SessionError::Connection(Endpoint::Downstream)));
}

#[test]
fn upstream_failure_closes_downstream() {
    let mut session = StreamDecoder::new(String::from("10.0.0.1"), 9000);
    session.step(Event::DownstreamAccepted, false);
    assert_eq!(
        session.step(Event::Failed, false),
        Action::Shutdown {
            downstream: true,
            upstream: false,
            end: SessionEnd::Failed(SessionError::Connection(Endpoint::Upstream)),
        }
    );
    assert_eq!(session.state(), failed(SessionError::Connection(Endpoint::Upstream)));
}

#[test]
fn short_header_read_is_a_framing_error() {
    let mut session = streaming_session();
    assert_eq!(
        session.step(Event::Failed, false),
        Action::Shutdown {
            downstream: true,
            upstream: true,
            end: SessionEnd::Failed(SessionError::Framing(FramingError::TruncatedHeader)),
        }
    );
}

#[test]
fn negative_length_is_a_framing_error() {
    let mut session = streaming_session();
    assert_eq!(
        session.step(Event::HeaderRead([0xff, 0xff, 0xff, 0xff]), false),
        Action::Shutdown {
            downstream: true,
            upstream: true,
            end: SessionEnd::Failed(SessionError::Framing(FramingError::NegativeLength)),
        }
    );
    assert_eq!(session.state(), failed(SessionError::Framing(FramingError::NegativeLength)));
}

#[test]
fn short_payload_read_is_a_framing_error() {
    let mut session = streaming_session();
    session.step(Event::HeaderRead([0, 0, 0, 4]), false);
    assert_eq!(
        session.step(Event::Failed, false),
        Action::Shutdown {
            downstream: true,
            upstream: true,
            end: SessionEnd::Failed(SessionError::Framing(FramingError::TruncatedPayload)),
        }
    );
}

#[test]
fn payload_of_another_length_is_a_framing_error() {
    for payload in [vec![], vec![1, 2, 3], vec![1, 2, 3, 4, 5]] {
        let mut session = streaming_session();
        session.step(Event::HeaderRead([0, 0, 0, 4]), false);
        assert_eq!(
            session.step(Event::PayloadRead(payload), false),
            Action::Shutdown {
                downstream: true,
                upstream: true,
                end: SessionEnd::Failed(SessionError::Framing(FramingError::TruncatedPayload)),
            }
        );
    }
}

#[test]
fn relay_failure_closes_both() {
    let mut session = streaming_session();
    relay_one_frame(&mut session, &[1, 2], &[3, 4], 1);
    assert_eq!(
        session.step(Event::Failed, false),
        Action::Shutdown {
            downstream: true,
            upstream: true,
            end: SessionEnd::Failed(SessionError::Relay),
        }
    );
    assert_eq!(session.state(), failed(SessionError::Relay));
}

#[test]
fn event_out_of_turn_fails_the_pending_step() {
    let mut session = StreamDecoder::new(String::from("10.0.0.1"), 9000);
    assert_eq!(
        session.step(Event::UpstreamConnected, false),
        Action::Shutdown {
            downstream: false,
            upstream: false,
            end: SessionEnd::Failed(SessionError::Connection(Endpoint::Downstream)),
        }
    );
    let mut session = streaming_session();
    assert_eq!(
        session.step(Event::Relayed, false),
        Action::Shutdown {
            downstream: true,
            upstream: true,
            end: SessionEnd::Failed(SessionError::Framing(FramingError::TruncatedHeader)),
        }
    );
    let mut session = streaming_session();
    session.step(Event::HeaderRead([0, 0, 0, 1]), false);
    session.step(Event::PayloadRead(vec![1]), false);
    assert_eq!(
        session.step(Event::PayloadRead(vec![1]), false),
        Action::Shutdown {
            downstream: true,
            upstream: true,
            end: SessionEnd::Failed(SessionError::Decode),
        }
    );
}

#[test]
fn cancellation_is_seen_after_the_relay_write() {
    let mut session = streaming_session();
    relay_one_frame(&mut session, &[1, 2], &[3, 4], 1);
    assert_eq!(
        session.step(Event::Relayed, true),
        Action::Shutdown { downstream: true, upstream: true, end: SessionEnd::Cancelled }
    );
    assert_eq!(session.state(), SessionState::Terminated(SessionEnd::Cancelled));
}

#[test]
fn cancellation_during_a_frame_waits_for_its_end() {
    let mut session = StreamDecoder::new(String::from("10.0.0.1"), 9000);
    assert_eq!(
        session.step(Event::DownstreamAccepted, true),
        Action::ConnectUpstream {
            host: String::from("10.0.0.1"),
            port: 9000,
            read_timeout_ms: None,
        }
    );
    assert_eq!(session.step(Event::UpstreamConnected, true), Action::ReadHeader);
    assert_eq!(
        session.step(Event::HeaderRead([0, 0, 0, 2]), true),
        Action::ReadPayload { buffer: vec![0, 0] }
    );
    let (packet, output) = match session.step(Event::PayloadRead(vec![5, 6]), true) {
        Action::Decode { packet, output } => (packet, output),
        other => panic!("no decode asked for: {:?}", other),
    };
    assert_eq!(
        session.step(Event::Decoded { packet, output, channel_samples: 1 }, true),
        Action::Relay { bytes: vec![0, 0, 0, 0] }
    );
    assert_eq!(session.state(), SessionState::Streaming(StreamStep::Relay));
    assert_eq!(
        session.step(Event::Relayed, true),
        Action::Shutdown { downstream: true, upstream: true, end: SessionEnd::Cancelled }
    );
}

#[test]
fn cancellation_during_a_failing_read_reports_the_failure() {
    let mut session = streaming_session();
    assert_eq!(
        session.step(Event::Failed, true),
        Action::Shutdown {
            downstream: true,
            upstream: true,
            end: SessionEnd::Failed(SessionError::Framing(FramingError::TruncatedHeader)),
        }
    );
}

#[test]
fn terminated_session_stays_terminated() {
    let mut session = streaming_session();
    session.step(Event::Failed, false);
    let end = session.state();
    assert_eq!(session.step(Event::DownstreamAccepted, false), Action::Done);
    assert_eq!(session.step(Event::UpstreamConnected, true), Action::Done);
    assert_eq!(session.step(Event::HeaderRead([0, 0, 0, 1]), false), Action::Done);
    assert_eq!(session.step(Event::PayloadRead(vec![1]), false), Action::Done);
    assert_eq!(session.step(Event::Relayed, true), Action::Done);
    assert_eq!(session.step(Event::Failed, false), Action::Done);
    assert_eq!(session.start(), Action::Done);
    assert_eq!(session.state(), end);
}

#[test]
fn no_read_begins_before_the_relay_write_completes() {
    let mut session = StreamDecoder::new(String::from("10.0.0.1"), 9000);
    let mut reads_begun = 0;
    let mut relays_completed = 0;
    let mut count = |action: &Action, relayed: bool, reads: &mut i32, relays: &mut i32| {
        if relayed {
            *relays += 1;
        }
        if *action == Action::ReadHeader {
            *reads += 1;
        }
        assert!(*reads <= *relays + 1);
    };
    let action = session.step(Event::DownstreamAccepted, false);
    count(&action, false, &mut reads_begun, &mut relays_completed);
    let action = session.step(Event::UpstreamConnected, false);
    count(&action, false, &mut reads_begun, &mut relays_completed);
    for frame in 0..5u8 {
        let action = session.step(Event::HeaderRead([0, 0, 0, 1]), false);
        count(&action, false, &mut reads_begun, &mut relays_completed);
        let action = session.step(Event::PayloadRead(vec![frame]), false);
        count(&action, false, &mut reads_begun, &mut relays_completed);
        let (packet, output) = match action {
            Action::Decode { packet, output } => (packet, output),
            other => panic!("no decode asked for: {:?}", other),
        };
        let action = session.step(Event::Decoded { packet, output, channel_samples: 120 }, false);
        count(&action, false, &mut reads_begun, &mut relays_completed);
        assert_eq!(reads_begun, relays_completed + 1);
        let action = session.step(Event::Relayed, frame == 4);
        count(&action, true, &mut reads_begun, &mut relays_completed);
    }
    assert_eq!(reads_begun, 5);
    assert_eq!(relays_completed, 5);
    assert_eq!(session.state(), SessionState::Terminated(SessionEnd::Cancelled));
}

#[test]
fn read_timeout_goes_out_with_the_connect_request() {
    let mut session = StreamDecoder::new(String::from("10.0.0.1"), 9000);
    session.set_read_timeout(2500);
    assert_eq!(
        session.step(Event::DownstreamAccepted, false),
        Action::ConnectUpstream {
            host: String::from("10.0.0.1"),
            port: 9000,
            read_timeout_ms: Some(2500),
        }
    );
}

#[test]
fn read_timeout_of_zero_is_no_limit() {
    let mut session = StreamDecoder::new(String::from("10.0.0.1"), 9000);
    session.set_read_timeout(2500);
    session.set_read_timeout(0);
    assert_eq!(
        session.step(Event::DownstreamAccepted, false),
        Action::ConnectUpstream {
            host: String::from("10.0.0.1"),
            port: 9000,
            read_timeout_ms: None,
        }
    );
}

#[test]
fn same_frame_asks_for_the_same_decode() {
    let frame = encode_frame(&[0x48, 0x0b, 0xe4, 0xc1]).unwrap();
    let mut asked: Vec<Action> = Vec::new();
    for _ in 0..2 {
        let mut session = streaming_session();
        session.step(Event::HeaderRead(header_of(&frame)), false);
        asked.push(session.step(Event::PayloadRead(frame[4..].to_vec()), false));
    }
    assert_eq!(asked[0], asked[1]);
    assert_eq!(
        asked[0],
        Action::Decode { packet: vec![0x48, 0x0b, 0xe4, 0xc1], output: vec![0i16; 240] }
    );
}

#[test]
fn end_messages() {
    assert_eq!(SessionEnd::Cancelled.message(), "Quit detected.");
    assert_eq!(
        SessionEnd::Failed(SessionError::Framing(FramingError::TruncatedHeader)).message(),
        "Packet byte count read error."
    );
    assert_eq!(
        SessionEnd::Failed(SessionError::Framing(FramingError::NegativeLength)).message(),
        "Packet byte count is negative."
    );
    assert_eq!(
        SessionEnd::Failed(SessionError::Framing(FramingError::TruncatedPayload)).message(),
        "Packet read error."
    );
    assert_eq!(SessionEnd::Failed(SessionError::Decode).message(), "Packet decode error.");
    assert_eq!(
        SessionEnd::Failed(SessionError::Connection(Endpoint::Downstream)).message(),
        "Audio thread connection error."
    );
    assert_eq!(
        SessionEnd::Failed(SessionError::Connection(Endpoint::Upstream)).message(),
        "Server connection error."
    );
    assert_eq!(SessionEnd::Failed(SessionError::Relay).message(), "PCM data send error.");
}
