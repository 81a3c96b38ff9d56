//! Fixed parameters of the audio pipeline.

use vstd::prelude::*;

verus! {

/// Samples per second of the mono stream.
pub const SAMPLE_RATE: u32 = 48000;

/// Number of interleaved channels: the stream is mono.
pub const CHANNEL_COUNT: u16 = 1;

/// Samples in one codec frame: 10 ms at 48 kHz.
pub const FRAME_SIZE: usize = 480;

/// Length of audio, in milliseconds, that the playback buffer may hold.
pub const BUFFER_DURATION_MS: u32 = 200;

/// Capacity of the playback buffer in samples.
pub const BUFFER_SAMPLES: usize = 9600;

/// Milliseconds between two keep-alive ticks.
pub const KEEP_ALIVE_INTERVAL_MS: u64 = 1000;

/// Milliseconds the receiver sleeps when the socket has nothing to deliver.
pub const RECEIVE_IDLE_MS: u64 = 1;

/// Size of the receive buffer: no datagram longer than this is taken whole.
pub const MAX_PACKET_SIZE: usize = 4000;

/// Size of the buffer one frame is encoded into.
pub const ENCODE_BUFFER_SIZE: usize = 400;

/// Lowest bitrate, in bits per second, that the encoder is asked for.
pub const MIN_BITRATE: u32 = 6000;

/// Highest bitrate, in bits per second, that the encoder is asked for.
pub const MAX_BITRATE: u32 = 510000;

/// Bitrate of a freshly created client.
pub const DEFAULT_BITRATE: u32 = 64000;

/// Number of samples that `duration_ms` milliseconds of audio take at
/// `sample_rate` samples per second, rounded down.
pub open spec fn samples_in(sample_rate: int, duration_ms: int) -> int {
    sample_rate * duration_ms / 1000
}

/// The playback capacity is 200 ms of audio at the stream's sample rate, and
/// one frame is 10 ms of it.
pub proof fn lemma_buffer_samples()
    ensures
        BUFFER_SAMPLES == samples_in(SAMPLE_RATE as int, BUFFER_DURATION_MS as int),
        FRAME_SIZE == samples_in(SAMPLE_RATE as int, 10),
        BUFFER_SAMPLES == 20 * FRAME_SIZE,
{
}

/// Computes `samples_in` for a sample rate and a duration, or `None` when the
/// count does not fit the machine's index type.
pub fn sample_capacity(sample_rate: u32, duration_ms: u32) -> (capacity: Option<usize>)
    ensures
        match capacity {
            Some(n) => n == samples_in(sample_rate as int, duration_ms as int),
            None => samples_in(sample_rate as int, duration_ms as int) > usize::MAX,
        },
{
    assert(sample_rate * duration_ms <= 0xffff_ffff * 0xffff_ffff) by (nonlinear_arith)
        requires
            0 <= sample_rate <= 0xffff_ffff,
            0 <= duration_ms <= 0xffff_ffff,
    ;
    let product: u64 = (sample_rate as u64) * (duration_ms as u64);
    let samples: u64 = product / 1000;
    if samples <= usize::MAX as u64 {
        Some(samples as usize)
    } else {
        None
    }
}

} // verus!
