//! Frames and the accumulator that cuts captured samples into frames.

use vstd::prelude::*;
use crate::config::FRAME_SIZE;

verus! {

/// Exactly `FRAME_SIZE` consecutive samples: the unit the codec works on.
pub struct Frame<T> {
    samples: Vec<T>,
}

impl<T> View for Frame<T> {
    type V = Seq<T>;

    closed spec fn view(&self) -> Seq<T> {
        self.samples@
    }
}

impl<T> Frame<T> {
    #[verifier::type_invariant]
    spec fn full(self) -> bool {
        self.samples@.len() == FRAME_SIZE
    }

    /// Makes a frame of `samples` if there are exactly `FRAME_SIZE` of them.
    pub fn from_vec(samples: Vec<T>) -> (frame: Option<Frame<T>>)
        ensures
            frame is Some <==> samples@.len() == FRAME_SIZE,
            frame matches Some(f) ==> f@ == samples@,
    {
        if samples.len() == FRAME_SIZE {
            Some(Frame { samples })
        } else {
            None
        }
    }

    /// The samples of the frame, oldest first.
    pub fn samples(&self) -> (samples: &Vec<T>)
        ensures
            samples@ == self@,
            samples@.len() == FRAME_SIZE,
    {
        proof {
            use_type_invariant(self);
        }
        &self.samples
    }

    /// Gives up the frame for its samples.
    pub fn into_vec(self) -> (samples: Vec<T>)
        ensures
            samples@ == self@,
            samples@.len() == FRAME_SIZE,
    {
        proof {
            use_type_invariant(&self);
        }
        self.samples
    }
}

/// The complete frames at the front of `samples`, oldest first: the frame at
/// index `i` holds the samples from `i * FRAME_SIZE` up to the next multiple.
pub open spec fn ready_frames<T>(samples: Seq<T>) -> Seq<Seq<T>> {
    Seq::new(
        (samples.len() / FRAME_SIZE as nat) as nat,
        |i: int| samples.subrange(i * FRAME_SIZE as int, (i + 1) * FRAME_SIZE as int),
    )
}

/// What is left of `samples` behind its complete frames: fewer than
/// `FRAME_SIZE` samples.
pub open spec fn leftover<T>(samples: Seq<T>) -> Seq<T> {
    samples.skip((samples.len() / FRAME_SIZE as nat) * FRAME_SIZE as int)
}

/// Buffers captured samples until whole frames can be cut from them.
pub struct FrameAccumulator<T> {
    buffer: Vec<T>,
}

impl<T> View for FrameAccumulator<T> {
    type V = Seq<T>;

    closed spec fn view(&self) -> Seq<T> {
        self.buffer@
    }
}

impl<T: Copy> FrameAccumulator<T> {
    /// An accumulator that holds no samples.
    pub fn new() -> (accumulator: Self)
        ensures
            accumulator@ == Seq::<T>::empty(),
    {
        FrameAccumulator { buffer: Vec::new() }
    }

    /// Number of samples that wait for a frame to fill.
    pub fn len(&self) -> (n: usize)
        ensures
            n == self@.len(),
    {
        self.buffer.len()
    }

    /// Appends `samples` behind what is buffered.
    pub fn push(&mut self, samples: &[T])
        ensures
            final(self)@ == old(self)@ + samples@,
    {
        let n: usize = samples.len();
        let mut i: usize = 0;
        while i < n
            invariant
                n == samples@.len(),
                i <= n,
                self.buffer@ == old(self).buffer@ + samples@.take(i as int),
            decreases n - i,
        {
            self.buffer.push(samples[i]);
            i += 1;
        }
    }

    /// Removes every complete frame from the front of the buffer and returns
    /// them, oldest first. Fewer than `FRAME_SIZE` samples stay behind.
    pub fn drain_ready_frames(&mut self) -> (frames: Vec<Frame<T>>)
        ensures
            frames@.len() == ready_frames(old(self)@).len(),
            forall|i: int|
                0 <= i < frames@.len() ==> (#[trigger] frames@[i])@ == ready_frames(old(self)@)[i],
            final(self)@ == leftover(old(self)@),
            final(self)@.len() == old(self)@.len() % FRAME_SIZE as nat,
            frames@.len() == old(self)@.len() / FRAME_SIZE as nat,
    {
        let total: usize = self.buffer.len();
        let count: usize = total / FRAME_SIZE;
        let mut frames: Vec<Frame<T>> = Vec::new();
        let mut k: usize = 0;
        while k < count
            invariant
                total == self.buffer@.len(),
                count == total / FRAME_SIZE,
                k <= count,
                self.buffer@ == old(self).buffer@,
                frames@.len() == k,
                forall|i: int|
                    0 <= i < k ==> (#[trigger] frames@[i])@ == ready_frames(self.buffer@)[i],
            decreases count - k,
        {
            let start: usize = k * FRAME_SIZE;
            let mut samples: Vec<T> = Vec::new();
            let mut j: usize = 0;
            while j < FRAME_SIZE
                invariant
                    total == self.buffer@.len(),
                    start == k * FRAME_SIZE,
                    start + FRAME_SIZE <= total,
                    j <= FRAME_SIZE,
                    samples@ == self.buffer@.subrange(start as int, start + j),
                decreases FRAME_SIZE - j,
            {
                samples.push(self.buffer[start + j]);
                j += 1;
            }
            frames.push(Frame { samples });
            k += 1;
        }
        let mut rest: Vec<T> = Vec::new();
        let mut j: usize = count * FRAME_SIZE;
        while j < total
            invariant
                total == self.buffer@.len(),
                count == total / FRAME_SIZE,
                count * FRAME_SIZE <= j <= total,
                rest@ == self.buffer@.subrange(count * FRAME_SIZE, j as int),
            decreases total - j,
        {
            rest.push(self.buffer[j]);
            j += 1;
        }
        self.buffer = rest;
        frames
    }
}

/// All samples of `chunks`, in the order in which they were captured.
pub open spec fn concat<T>(chunks: Seq<Seq<T>>) -> Seq<T>
    decreases chunks.len(),
{
    if chunks.len() == 0 {
        Seq::empty()
    } else {
        concat(chunks.drop_last()) + chunks.last()
    }
}

/// What an accumulator that started empty holds after each of `chunks` was
/// pushed and the ready frames were drained after every push.
pub open spec fn buffered_after<T>(chunks: Seq<Seq<T>>) -> Seq<T>
    decreases chunks.len(),
{
    if chunks.len() == 0 {
        Seq::empty()
    } else {
        leftover(buffered_after(chunks.drop_last()) + chunks.last())
    }
}

/// The frames that those drains yielded, one drain after the other.
pub open spec fn frames_after<T>(chunks: Seq<Seq<T>>) -> Seq<Seq<T>>
    decreases chunks.len(),
{
    if chunks.len() == 0 {
        Seq::empty()
    } else {
        frames_after(chunks.drop_last()) + ready_frames(
            buffered_after(chunks.drop_last()) + chunks.last(),
        )
    }
}

/// Cutting frames from `head + tail` gives the frames of `head` followed by
/// the frames of what `head` left over with `tail` behind it.
pub proof fn lemma_frames_of_append<T>(head: Seq<T>, tail: Seq<T>)
    ensures
        ready_frames(head + tail) == ready_frames(head) + ready_frames(leftover(head) + tail),
        leftover(head + tail) == leftover(leftover(head) + tail),
{
    let size = FRAME_SIZE as int;
    let whole = head + tail;
    let done = (head.len() / FRAME_SIZE as nat) as int;
    let carried = leftover(head) + tail;
    assert(carried =~= whole.skip(done * size));
    assert(carried.len() == whole.len() - done * size);
    assert(whole.len() / FRAME_SIZE as nat == done + carried.len() / FRAME_SIZE as nat);
    let joined = ready_frames(head) + ready_frames(carried);
    assert(ready_frames(whole).len() == joined.len());
    assert forall|i: int| 0 <= i < joined.len() implies ready_frames(whole)[i] == joined[i] by {
        if i < done {
            assert(whole.subrange(i * size, (i + 1) * size) =~= head.subrange(
                i * size,
                (i + 1) * size,
            ));
        } else {
            assert(whole.subrange(i * size, (i + 1) * size) =~= carried.subrange(
                (i - done) * size,
                (i - done + 1) * size,
            ));
        }
    }
}

/// Whatever the sizes of the captured chunks, pushing each and draining after
/// each push yields the frames of the whole stream: one for every
/// `FRAME_SIZE` samples pushed so far, with the remainder still buffered.
pub proof fn lemma_drained_frames_of_stream<T>(chunks: Seq<Seq<T>>)
    ensures
        frames_after(chunks) == ready_frames(concat(chunks)),
        buffered_after(chunks) == leftover(concat(chunks)),
        frames_after(chunks).len() == concat(chunks).len() / FRAME_SIZE as nat,
        buffered_after(chunks).len() == concat(chunks).len() % FRAME_SIZE as nat,
    decreases chunks.len(),
{
    if chunks.len() > 0 {
        lemma_drained_frames_of_stream(chunks.drop_last());
        lemma_frames_of_append(concat(chunks.drop_last()), chunks.last());
    }
}

} // verus!
