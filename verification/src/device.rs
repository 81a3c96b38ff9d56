//! What an audio device must be able to do before a stream is built on it.

use vstd::prelude::*;
use crate::config::{CHANNEL_COUNT, SAMPLE_RATE};

verus! {

/// The representation of one sample in a device's buffers.
#[derive(Clone, Copy, Debug, PartialEq, Eq, Structural)]
pub enum SampleFormat {
    /// 8-bit signed integer.
    I8,
    /// 16-bit signed integer.
    I16,
    /// 32-bit signed integer.
    I32,
    /// 64-bit signed integer.
    I64,
    /// 8-bit unsigned integer.
    U8,
    /// 16-bit unsigned integer.
    U16,
    /// 32-bit unsigned integer.
    U32,
    /// 64-bit unsigned integer.
    U64,
    /// 32-bit floating point in [-1.0, 1.0].
    F32,
    /// 64-bit floating point in [-1.0, 1.0].
    F64,
}

/// One range of stream configurations that a device offers: a channel count,
/// a sample format, and every sample rate between two bounds.
#[derive(Clone, Copy, Debug, PartialEq, Eq, Structural)]
pub struct ConfigRange {
    /// Number of interleaved channels.
    pub channels: u16,
    /// Lowest sample rate of the range.
    pub min_sample_rate: u32,
    /// Highest sample rate of the range.
    pub max_sample_rate: u32,
    /// Representation of the samples.
    pub sample_format: SampleFormat,
}

/// Whether `range` holds the configuration the pipeline works in: mono, the
/// stream's sample rate, 32-bit floating-point samples.
pub open spec fn range_fits(range: ConfigRange) -> bool {
    &&& range.channels == CHANNEL_COUNT
    &&& range.min_sample_rate <= SAMPLE_RATE
    &&& range.max_sample_rate >= SAMPLE_RATE
    &&& range.sample_format == SampleFormat::F32
}

/// Whether a device that offers `ranges` can run the pipeline's stream.
pub open spec fn device_fits(ranges: Seq<ConfigRange>) -> bool {
    exists|i: int| 0 <= i < ranges.len() && range_fits(#[trigger] ranges[i])
}

impl ConfigRange {
    /// Says whether this range holds the pipeline's configuration.
    pub fn fits(&self) -> (fits: bool)
        ensures
            fits == range_fits(*self),
    {
        self.channels == CHANNEL_COUNT && self.min_sample_rate <= SAMPLE_RATE
            && self.max_sample_rate >= SAMPLE_RATE && self.sample_format == SampleFormat::F32
    }
}

/// Says whether any of the ranges a device offers holds the pipeline's
/// configuration.
pub fn supports_stream(ranges: &[ConfigRange]) -> (supported: bool)
    ensures
        supported == device_fits(ranges@),
{
    let n: usize = ranges.len();
    let mut i: usize = 0;
    while i < n
        invariant
            n == ranges@.len(),
            i <= n,
            forall|k: int| 0 <= k < i ==> !range_fits(#[trigger] ranges@[k]),
        decreases n - i,
    {
        if ranges[i].fits() {
            return true;
        }
        i += 1;
    }
    false
}

/// A device that offers nothing supports nothing, and one more range makes a
/// device fit exactly if it did before or the new range fits.
pub proof fn lemma_device_fits_by_range(ranges: Seq<ConfigRange>, range: ConfigRange)
    ensures
        !device_fits(Seq::<ConfigRange>::empty()),
        device_fits(ranges.push(range)) <==> device_fits(ranges) || range_fits(range),
{
    let more = ranges.push(range);
    if device_fits(ranges) {
        let i = choose|i: int| 0 <= i < ranges.len() && range_fits(#[trigger] ranges[i]);
        assert(range_fits(more[i]));
    }
    if range_fits(range) {
        assert(range_fits(more[ranges.len() as int]));
    }
    if device_fits(more) {
        let i = choose|i: int| 0 <= i < more.len() && range_fits(#[trigger] more[i]);
        assert(i < ranges.len() ==> range_fits(ranges[i]));
    }
}

} // verus!
