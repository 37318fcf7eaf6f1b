//! Local relay format: interleaved 16-bit samples, each as two little-endian
//! bytes, with no framing around them.

use vstd::prelude::*;

verus! {

/// Sample rate of the decoded signal, in hertz.
pub const SAMPLE_RATE_HZ: u32 = 48_000;

/// Channels in the decoded signal (stereo).
pub const CHANNELS: usize = 2;

/// Samples per channel in one frame of 2.5 ms at 48 kHz.
pub const SAMPLES_PER_FRAME: usize = 120;

/// Length of the sample buffer that one decoded frame is written into.
pub const OUTPUT_CAPACITY: usize = 240;

/// The two bytes that spell a 16-bit sample in little-endian order
/// (two's complement).
pub open spec fn spec_sample_le_bytes(s: i16) -> Seq<u8> {
    let u = if s < 0 {
        s + 0x1_0000
    } else {
        s as int
    };
    seq![(u % 0x100) as u8, (u / 0x100) as u8]
}

/// The signed 16-bit number that two bytes spell in little-endian order.
pub open spec fn spec_le_i16(b: Seq<u8>) -> int
    recommends
        b.len() == 2,
{
    let u = b[0] as int + b[1] as int * 0x100;
    if u >= 0x8000 {
        u - 0x1_0000
    } else {
        u
    }
}

/// The relay form of a run of samples: byte `i` is byte `i % 2` of sample
/// `i / 2`.
pub open spec fn spec_pcm_bytes(samples: Seq<i16>) -> Seq<u8> {
    Seq::new(2 * samples.len(), |i: int| spec_sample_le_bytes(samples[i / 2])[i % 2])
}

/// How many samples of the buffer are valid after a frame of
/// `channel_samples` samples per channel was decoded into a buffer of
/// `capacity` samples; `None` where the buffer cannot hold that many.
pub open spec fn spec_valid_samples(channel_samples: usize, capacity: nat) -> Option<nat> {
    if channel_samples * CHANNELS <= capacity {
        Some((channel_samples * CHANNELS) as nat)
    } else {
        None
    }
}

/// Spells a sample as two little-endian bytes.
pub fn sample_le_bytes(s: i16) -> (b: [u8; 2])
    ensures
        b@ == spec_sample_le_bytes(s),
{
    let u: u16 = if s < 0 {
        let low: u16 = (s + 0x4000 + 0x4000) as u16;
        low + 0x8000
    } else {
        s as u16
    };
    [(u % 0x100) as u8, (u / 0x100) as u8]
}

/// The number of valid samples in a buffer of `capacity` samples after a
/// frame of `channel_samples` samples per channel.
///
/// Gives `None` exactly when the buffer is too short for that many.
pub fn valid_samples(channel_samples: usize, capacity: usize) -> (r: Option<usize>)
    ensures
        match spec_valid_samples(channel_samples, capacity as nat) {
            Some(n) => r == Some(n as usize),
            None => r is None,
        },
{
    if channel_samples <= capacity / CHANNELS {
        Some(channel_samples * CHANNELS)
    } else {
        None
    }
}

/// Puts the first `count` samples of a buffer into relay form, in order.
pub fn pcm_bytes(samples: &[i16], count: usize) -> (bytes: Vec<u8>)
    requires
        count <= samples@.len(),
    ensures
        bytes@ == spec_pcm_bytes(samples@.subrange(0, count as int)),
{
    let mut bytes: Vec<u8> = Vec::new();
    let mut i: usize = 0;
    while i < count
        invariant
            i <= count <= samples@.len(),
            bytes@ == spec_pcm_bytes(samples@.subrange(0, i as int)),
        decreases count - i,
    {
        let pair: [u8; 2] = sample_le_bytes(samples[i]);
        bytes.push(pair[0]);
        bytes.push(pair[1]);
        i = i + 1;
    }
    bytes
}

/// The bytes to relay for one decoded frame: the relay form of the valid
/// samples of `output`, which are the first `channel_samples` samples of each
/// channel.
///
/// Gives `None` exactly when `output` is too short to hold that many.
pub fn frame_bytes(output: &[i16], channel_samples: usize) -> (r: Option<Vec<u8>>)
    ensures
        match spec_valid_samples(channel_samples, output@.len()) {
            Some(n) => r matches Some(bytes) && bytes@ == spec_pcm_bytes(
                output@.subrange(0, n as int),
            ),
            None => r is None,
        },
{
    match valid_samples(channel_samples, output.len()) {
        Some(n) => Some(pcm_bytes(output, n)),
        None => None,
    }
}

/// The output buffer holds exactly one frame of every channel, and a frame
/// lasts two and a half milliseconds at the sample rate.
pub proof fn lemma_buffer_holds_one_frame()
    ensures
        OUTPUT_CAPACITY == CHANNELS * SAMPLES_PER_FRAME,
        spec_valid_samples(SAMPLES_PER_FRAME, OUTPUT_CAPACITY as nat) == Some(
            OUTPUT_CAPACITY as nat,
        ),
        spec_valid_samples((SAMPLES_PER_FRAME + 1) as usize, OUTPUT_CAPACITY as nat) is None,
        SAMPLES_PER_FRAME * 2000 == SAMPLE_RATE_HZ * 5,
{
}

/// A sample is read back from the two bytes that spell it.
pub proof fn lemma_sample_round_trip(s: i16)
    ensures
        spec_sample_le_bytes(s).len() == 2,
        spec_le_i16(spec_sample_le_bytes(s)) == s,
{
}

/// The relay form holds two bytes for each sample, and the pair at `2 * k`
/// spells sample `k`.
pub proof fn lemma_pcm_bytes_layout(samples: Seq<i16>, k: int)
    requires
        0 <= k < samples.len(),
    ensures
        spec_pcm_bytes(samples).len() == 2 * samples.len(),
        spec_pcm_bytes(samples).subrange(2 * k, 2 * k + 2) == spec_sample_le_bytes(samples[k]),
{
}

/// Relaying two runs of samples one after the other sends the same bytes as
/// relaying them as one run: batching writes does not change what is sent.
pub proof fn lemma_pcm_bytes_concat(a: Seq<i16>, b: Seq<i16>)
    ensures
        spec_pcm_bytes(a + b) == spec_pcm_bytes(a) + spec_pcm_bytes(b),
{
}

} // verus!
