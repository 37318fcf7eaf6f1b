//! Wire framing: a four-byte big-endian signed length followed by that many
//! payload bytes.

use vstd::prelude::*;

verus! {

/// Number of bytes in a frame header.
pub const HEADER_LEN: usize = 4;

/// Largest payload length that a header can declare.
pub const MAX_PAYLOAD_LEN: usize = 0x7fff_ffff;

/// Why a byte stream does not hold a whole frame.
#[derive(Clone, Copy, Debug, PartialEq, Eq, Structural)]
pub enum FramingError {
    /// The stream ended before the four header bytes were complete.
    TruncatedHeader,
    /// The header spells a negative length.
    NegativeLength,
    /// The stream ended before the declared number of payload bytes.
    TruncatedPayload,
}

/// The unsigned number that four bytes spell in big-endian order.
pub open spec fn spec_be_u32(b: Seq<u8>) -> int
    recommends
        b.len() == 4,
{
    b[0] as int * 0x100_0000 + b[1] as int * 0x1_0000 + b[2] as int * 0x100 + b[3] as int
}

/// The signed 32-bit number that four bytes spell in big-endian order
/// (two's complement).
pub open spec fn spec_be_i32(b: Seq<u8>) -> int
    recommends
        b.len() == 4,
{
    if spec_be_u32(b) >= 0x8000_0000 {
        spec_be_u32(b) - 0x1_0000_0000
    } else {
        spec_be_u32(b)
    }
}

/// The four bytes that spell `v` as a big-endian signed 32-bit number.
pub open spec fn spec_i32_be_bytes(v: int) -> Seq<u8>
    recommends
        -0x8000_0000 <= v < 0x8000_0000,
{
    let u = if v < 0 {
        v + 0x1_0000_0000
    } else {
        v
    };
    seq![
        (u / 0x100_0000) as u8,
        ((u / 0x1_0000) % 0x100) as u8,
        ((u / 0x100) % 0x100) as u8,
        (u % 0x100) as u8,
    ]
}

/// The payload length that a header declares, or why it declares none.
pub open spec fn spec_payload_length(header: Seq<u8>) -> Result<nat, FramingError>
    recommends
        header.len() == 4,
{
    if spec_be_i32(header) < 0 {
        Err(FramingError::NegativeLength)
    } else {
        Ok(spec_be_i32(header) as nat)
    }
}

/// The wire form of one frame: the payload's length, then the payload.
pub open spec fn spec_encode_frame(payload: Seq<u8>) -> Seq<u8>
    recommends
        payload.len() <= MAX_PAYLOAD_LEN,
{
    spec_i32_be_bytes(payload.len() as int) + payload
}

/// The first frame of a byte stream and the bytes that follow it, or why the
/// stream does not begin with a whole frame.
pub open spec fn spec_read_frame(stream: Seq<u8>) -> Result<(Seq<u8>, Seq<u8>), FramingError> {
    if stream.len() < 4 {
        Err(FramingError::TruncatedHeader)
    } else {
        match spec_payload_length(stream.subrange(0, 4)) {
            Err(e) => Err(e),
            Ok(n) => if stream.len() - 4 < n {
                Err(FramingError::TruncatedPayload)
            } else {
                Ok(
                    (
                        stream.subrange(4, 4 + n as int),
                        stream.subrange(4 + n as int, stream.len() as int),
                    ),
                )
            },
        }
    }
}

/// Reads four bytes as a big-endian signed 32-bit integer.
pub fn be_i32(b: &[u8; 4]) -> (v: i32)
    ensures
        v as int == spec_be_i32(b@),
{
    let u: u32 = (b[0] as u32) * 0x100_0000 + (b[1] as u32) * 0x1_0000 + (b[2] as u32) * 0x100 + (
    b[3] as u32);
    if u >= 0x8000_0000 {
        let low: u32 = u - 0x8000_0000;
        (low as i32) - 0x4000_0000 - 0x4000_0000
    } else {
        u as i32
    }
}

/// Spells a signed 32-bit integer as four big-endian bytes.
pub fn i32_be_bytes(v: i32) -> (b: [u8; 4])
    ensures
        b@ == spec_i32_be_bytes(v as int),
{
    let u: u32 = if v < 0 {
        let low: u32 = (v + 0x4000_0000 + 0x4000_0000) as u32;
        low + 0x8000_0000
    } else {
        v as u32
    };
    [
        (u / 0x100_0000) as u8,
        ((u / 0x1_0000) % 0x100) as u8,
        ((u / 0x100) % 0x100) as u8,
        (u % 0x100) as u8,
    ]
}

/// The payload length that a header declares.
///
/// Fails with `NegativeLength` exactly when the header's signed value is
/// below zero.
pub fn payload_length(header: &[u8; 4]) -> (r: Result<usize, FramingError>)
    ensures
        match spec_payload_length(header@) {
            Ok(n) => r == Ok::<usize, FramingError>(n as usize) && n <= MAX_PAYLOAD_LEN,
            Err(e) => r == Err::<usize, FramingError>(e),
        },
{
    let v: i32 = be_i32(header);
    if v < 0 {
        Err(FramingError::NegativeLength)
    } else {
        Ok(v as usize)
    }
}

/// Puts a payload into its wire form.
///
/// Gives `None` exactly when the payload is longer than a header can declare.
pub fn encode_frame(payload: &[u8]) -> (r: Option<Vec<u8>>)
    ensures
        payload@.len() > MAX_PAYLOAD_LEN <==> r is None,
        r matches Some(bytes) ==> bytes@ == spec_encode_frame(payload@),
{
    if payload.len() > MAX_PAYLOAD_LEN {
        return None;
    }
    let header: [u8; 4] = i32_be_bytes(payload.len() as i32);
    let mut bytes: Vec<u8> = Vec::new();
    bytes.extend_from_slice(vstd::array::array_as_slice(&header));
    bytes.extend_from_slice(payload);
    Some(bytes)
}

/// Reads frames out of byte streams into one buffer that it keeps between
/// frames.
pub struct FrameReader {
    buffer: Vec<u8>,
}

impl View for FrameReader {
    type V = Seq<u8>;

    /// The payload of the frame read last; empty before the first frame and
    /// after a failure.
    closed spec fn view(&self) -> Seq<u8> {
        self.buffer@
    }
}

impl FrameReader {
    /// A reader that holds no payload.
    pub fn new() -> (r: Self)
        ensures
            r@ == Seq::<u8>::empty(),
    {
        FrameReader { buffer: Vec::new() }
    }

    /// The payload of the frame read last.
    pub fn payload(&self) -> (p: &Vec<u8>)
        ensures
            p@ == self@,
    {
        &self.buffer
    }

    /// Reads the frame at the start of `stream` and keeps its payload.
    ///
    /// On success returns how many bytes of the stream the frame took. On
    /// failure the reader holds no payload, so that no part of a broken frame
    /// can be taken for a frame.
    pub fn read_frame(&mut self, stream: &[u8]) -> (r: Result<usize, FramingError>)
        ensures
            match spec_read_frame(stream@) {
                Ok((payload, rest)) => r == Ok::<usize, FramingError>((4 + payload.len()) as usize)
                    && final(self)@ == payload,
                Err(e) => r == Err::<usize, FramingError>(e) && final(self)@ == Seq::<u8>::empty(),
            },
    {
        self.buffer.clear();
        if stream.len() < HEADER_LEN {
            return Err(FramingError::TruncatedHeader);
        }
        let header: [u8; 4] = [stream[0], stream[1], stream[2], stream[3]];
        match payload_length(&header) {
            Err(e) => Err(e),
            Ok(n) => {
                if stream.len() - HEADER_LEN < n {
                    Err(FramingError::TruncatedPayload)
                } else {
                    let body: &[u8] = vstd::slice::slice_subrange(
                        stream,
                        HEADER_LEN,
                        HEADER_LEN + n,
                    );
                    self.buffer.extend_from_slice(body);
                    assert(self.buffer@ =~= stream@.subrange(4, 4 + n));
                    Ok(HEADER_LEN + n)
                }
            },
        }
    }
}

/// A signed 32-bit number is read back from the four bytes that spell it.
pub proof fn lemma_be_i32_round_trip(v: int)
    requires
        -0x8000_0000 <= v < 0x8000_0000,
    ensures
        spec_i32_be_bytes(v).len() == 4,
        spec_be_i32(spec_i32_be_bytes(v)) == v,
{
}

/// Framing round trip: a payload whose length a header can declare, put into
/// its wire form and read back, is the same payload, and nothing of the
/// stream is left. With other bytes after the frame, those bytes are left.
pub proof fn lemma_frame_round_trip(payload: Seq<u8>, rest: Seq<u8>)
    requires
        payload.len() <= MAX_PAYLOAD_LEN,
    ensures
        spec_read_frame(spec_encode_frame(payload)) == Ok::<(Seq<u8>, Seq<u8>), FramingError>(
            (payload, Seq::<u8>::empty()),
        ),
        spec_read_frame(spec_encode_frame(payload) + rest) == Ok::<
            (Seq<u8>, Seq<u8>),
            FramingError,
        >((payload, rest)),
{
    let n = payload.len() as int;
    lemma_be_i32_round_trip(n);
    let wire = spec_encode_frame(payload);
    assert(wire.subrange(4, 4 + n) =~= payload);
    assert(wire.subrange(4 + n, wire.len() as int) =~= Seq::<u8>::empty());
    let long = wire + rest;
    assert(long.subrange(4, 4 + n) =~= payload);
    assert(long.subrange(4 + n, long.len() as int) =~= rest);
}

/// Truncation: every proper prefix of a frame's wire form is refused, as a
/// truncated header when it is shorter than a header and as a truncated
/// payload otherwise.
pub proof fn lemma_truncated_frame_is_refused(payload: Seq<u8>, kept: int)
    requires
        payload.len() <= MAX_PAYLOAD_LEN,
        0 <= kept < spec_encode_frame(payload).len(),
    ensures
        kept < 4 ==> spec_read_frame(spec_encode_frame(payload).subrange(0, kept)) == Err::<
            (Seq<u8>, Seq<u8>),
            FramingError,
        >(FramingError::TruncatedHeader),
        kept >= 4 ==> spec_read_frame(spec_encode_frame(payload).subrange(0, kept)) == Err::<
            (Seq<u8>, Seq<u8>),
            FramingError,
        >(FramingError::TruncatedPayload),
{
    lemma_be_i32_round_trip(payload.len() as int);
}

/// A stream is read as a frame only if it is long enough for the header and
/// for the payload that the header declares; the payload kept is then exactly
/// the declared number of bytes that follow the header.
pub proof fn lemma_frame_is_whole(stream: Seq<u8>)
    ensures
        spec_read_frame(stream) matches Ok((payload, rest)) ==> {
            &&& stream.len() >= 4
            &&& payload.len() == spec_be_i32(stream.subrange(0, 4))
            &&& stream =~= stream.subrange(0, 4) + payload + rest
        },
{
}

} // verus!
