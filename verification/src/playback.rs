//! The bounded buffer between the network receiver and the playback callback.

use std::collections::VecDeque;
use vstd::prelude::*;

verus! {

/// The newest `capacity` elements of `samples`, in their order; all of them
/// where there are no more than that.
pub open spec fn keep_newest<T>(samples: Seq<T>, capacity: nat) -> Seq<T> {
    if samples.len() <= capacity {
        samples
    } else {
        samples.skip(samples.len() - capacity)
    }
}

/// What `count` pulls hand out of a buffer that holds `samples`: the buffered
/// samples from the front, then `silence` for every pull the buffer cannot
/// serve.
pub open spec fn pulled<T>(samples: Seq<T>, silence: T, count: nat) -> Seq<T> {
    Seq::new(
        count,
        |i: int|
            if i < samples.len() {
                samples[i]
            } else {
                silence
            },
    )
}

/// What stays in a buffer that held `samples` after `count` pulls.
pub open spec fn unpulled<T>(samples: Seq<T>, count: nat) -> Seq<T> {
    if count <= samples.len() {
        samples.skip(count as int)
    } else {
        Seq::empty()
    }
}

/// A first-in first-out buffer of decoded samples that never holds more than
/// its capacity: when it overflows, the oldest samples are dropped.
pub struct PlaybackRing<T> {
    samples: VecDeque<T>,
    capacity: usize,
    silence: T,
}

impl<T> View for PlaybackRing<T> {
    type V = Seq<T>;

    closed spec fn view(&self) -> Seq<T> {
        self.samples@
    }
}

impl<T> PlaybackRing<T> {
    #[verifier::type_invariant]
    spec fn bounded(self) -> bool {
        self.samples@.len() <= self.capacity
    }

    /// The largest number of samples the buffer holds.
    pub closed spec fn spec_capacity(&self) -> usize {
        self.capacity
    }

    /// The sample handed out when the buffer has run dry.
    pub closed spec fn spec_silence(&self) -> T {
        self.silence
    }
}

impl<T: Copy> PlaybackRing<T> {
    /// An empty buffer for up to `capacity` samples that plays `silence` on
    /// underrun.
    pub fn new(capacity: usize, silence: T) -> (ring: Self)
        ensures
            ring@ == Seq::<T>::empty(),
            ring.spec_capacity() == capacity,
            ring.spec_silence() == silence,
    {
        PlaybackRing { samples: VecDeque::new(), capacity, silence }
    }

    /// The largest number of samples the buffer holds.
    pub fn capacity(&self) -> (capacity: usize)
        ensures
            capacity == self.spec_capacity(),
    {
        self.capacity
    }

    /// The sample handed out when the buffer has run dry.
    pub fn silence(&self) -> (silence: T)
        ensures
            silence == self.spec_silence(),
    {
        self.silence
    }

    /// Number of buffered samples; never more than the capacity.
    pub fn len(&self) -> (n: usize)
        ensures
            n == self@.len(),
            n <= self.spec_capacity(),
    {
        proof {
            use_type_invariant(self);
        }
        self.samples.len()
    }

    /// Appends `samples` at the back, then drops samples from the front until
    /// no more than the capacity remain.
    pub fn push_many(&mut self, samples: &[T])
        ensures
            final(self)@ == keep_newest(old(self)@ + samples@, old(self).spec_capacity() as nat),
            final(self).spec_capacity() == old(self).spec_capacity(),
            final(self).spec_silence() == old(self).spec_silence(),
    {
        let mut held: VecDeque<T> = VecDeque::new();
        std::mem::swap(&mut held, &mut self.samples);
        let n: usize = samples.len();
        let mut i: usize = 0;
        while i < n
            invariant
                n == samples@.len(),
                i <= n,
                held@ == old(self).samples@ + samples@.take(i as int),
            decreases n - i,
        {
            held.push_back(samples[i]);
            i += 1;
        }
        let ghost all = old(self).samples@ + samples@;
        let capacity: usize = self.capacity;
        let ghost mut dropped: int = 0;
        while held.len() > capacity
            invariant
                0 <= dropped <= all.len(),
                held@ == all.skip(dropped),
                dropped == 0 || held@.len() >= capacity,
            decreases held@.len(),
        {
            let _ = held.pop_front();
            proof {
                dropped = dropped + 1;
            }
        }
        self.samples = held;
    }

    /// Removes and returns the oldest sample, or returns silence and leaves
    /// the buffer empty when it holds none.
    pub fn pull_one(&mut self) -> (sample: T)
        ensures
            old(self)@.len() == 0 ==> sample == old(self).spec_silence() && final(self)@
                == old(self)@,
            old(self)@.len() > 0 ==> sample == old(self)@[0] && final(self)@ == old(self)@.skip(1),
            final(self).spec_capacity() == old(self).spec_capacity(),
            final(self).spec_silence() == old(self).spec_silence(),
    {
        proof {
            use_type_invariant(&*self);
        }
        let mut held: VecDeque<T> = VecDeque::new();
        std::mem::swap(&mut held, &mut self.samples);
        let front: Option<T> = held.pop_front();
        self.samples = held;
        match front {
            Some(sample) => sample,
            None => self.silence,
        }
    }

    /// Pulls `count` samples, oldest first: what one playback callback needs
    /// to fill its output. Where the buffer runs dry the rest is silence.
    pub fn pull_many(&mut self, count: usize) -> (output: Vec<T>)
        ensures
            output@ == pulled(old(self)@, old(self).spec_silence(), count as nat),
            final(self)@ == unpulled(old(self)@, count as nat),
            final(self).spec_capacity() == old(self).spec_capacity(),
            final(self).spec_silence() == old(self).spec_silence(),
    {
        let mut output: Vec<T> = Vec::new();
        let mut i: usize = 0;
        while i < count
            invariant
                i <= count,
                output@ == pulled(old(self)@, old(self).spec_silence(), i as nat),
                self@ == unpulled(old(self)@, i as nat),
                self.spec_capacity() == old(self).spec_capacity(),
                self.spec_silence() == old(self).spec_silence(),
            decreases count - i,
        {
            let sample: T = self.pull_one();
            output.push(sample);
            i += 1;
        }
        output
    }
}

/// The buffer never outgrows its capacity: what a push keeps is no longer than
/// the capacity, it is the tail of what was offered, so the samples dropped
/// are exactly the oldest excess, and the kept ones stay in order.
pub proof fn lemma_overflow_drops_oldest<T>(held: Seq<T>, pushed: Seq<T>, capacity: nat)
    ensures
        keep_newest(held + pushed, capacity).len() <= capacity,
        held.len() + pushed.len() <= capacity ==> keep_newest(held + pushed, capacity) == held
            + pushed,
        held.len() + pushed.len() > capacity ==> {
            let excess = held.len() + pushed.len() - capacity;
            &&& keep_newest(held + pushed, capacity).len() == capacity
            &&& forall|i: int|
                0 <= i < capacity ==> #[trigger] keep_newest(held + pushed, capacity)[i] == (held
                    + pushed)[excess + i]
        },
{
}

/// Two pushes in a row keep what one push of both chunks would keep.
pub proof fn lemma_pushes_compose<T>(held: Seq<T>, first: Seq<T>, second: Seq<T>, capacity: nat)
    ensures
        keep_newest(keep_newest(held + first, capacity) + second, capacity) == keep_newest(
            held + first + second,
            capacity,
        ),
{
}

/// An empty buffer hands out nothing but silence, and stays empty.
pub proof fn lemma_empty_plays_silence<T>(silence: T, count: nat)
    ensures
        pulled(Seq::<T>::empty(), silence, count).len() == count,
        forall|i: int|
            0 <= i < count ==> #[trigger] pulled(Seq::<T>::empty(), silence, count)[i] == silence,
        unpulled(Seq::<T>::empty(), count) == Seq::<T>::empty(),
{
}

/// Samples come out in the order in which they went in: what fits the
/// capacity and is pushed into an empty buffer is pulled back unchanged.
pub proof fn lemma_first_in_first_out<T>(pushed: Seq<T>, silence: T, capacity: nat)
    requires
        pushed.len() <= capacity,
    ensures
        pulled(keep_newest(Seq::<T>::empty() + pushed, capacity), silence, pushed.len()) == pushed,
        unpulled(keep_newest(Seq::<T>::empty() + pushed, capacity), pushed.len()) == Seq::<
            T,
        >::empty(),
{
}

} // verus!
