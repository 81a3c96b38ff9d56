//! What the two hardware callbacks do with their buffers.

use vstd::prelude::*;
use crate::frame::{leftover, ready_frames, Frame, FrameAccumulator};
use crate::playback::{pulled, unpulled, PlaybackRing};

verus! {

/// Whether captured audio is taken in at all: the client runs and the
/// transmission gate is open.
pub open spec fn capturing(running: bool, transmitting: bool) -> bool {
    running && transmitting
}

/// One capture callback. While the client runs and transmits, the
/// captured samples are buffered and every frame that is now complete is
/// handed out for encoding, oldest first. Otherwise the samples are dropped
/// and the buffer is not touched, so that no stale audio is sent when
/// transmission resumes.
pub fn capture<T: Copy>(
    accumulator: &mut FrameAccumulator<T>,
    running: bool,
    transmitting: bool,
    samples: &[T],
) -> (frames: Vec<Frame<T>>)
    ensures
        capturing(running, transmitting) ==> {
            &&& frames@.len() == ready_frames(old(accumulator)@ + samples@).len()
            &&& forall|i: int|
                0 <= i < frames@.len() ==> (#[trigger] frames@[i])@ == ready_frames(
                    old(accumulator)@ + samples@,
                )[i]
            &&& final(accumulator)@ == leftover(old(accumulator)@ + samples@)
        },
        !capturing(running, transmitting) ==> {
            &&& frames@.len() == 0
            &&& final(accumulator)@ == old(accumulator)@
        },
{
    if !running || !transmitting {
        return Vec::new();
    }
    accumulator.push(samples);
    accumulator.drain_ready_frames()
}

/// One playback callback that has `count` samples to fill. While the client
/// runs, they are pulled from the buffer, with silence where it runs dry.
/// Otherwise nothing is pulled and the output is left as it is.
pub fn playback<T: Copy>(ring: &mut PlaybackRing<T>, running: bool, count: usize) -> (output:
    Option<Vec<T>>)
    ensures
        output is Some <==> running,
        output matches Some(samples) ==> samples@ == pulled(
            old(ring)@,
            old(ring).spec_silence(),
            count as nat,
        ),
        final(ring)@ == if running {
            unpulled(old(ring)@, count as nat)
        } else {
            old(ring)@
        },
        final(ring).spec_capacity() == old(ring).spec_capacity(),
        final(ring).spec_silence() == old(ring).spec_silence(),
{
    if !running {
        return None;
    }
    Some(ring.pull_many(count))
}

} // verus!
