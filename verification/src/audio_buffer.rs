//! Lock-free-style audio ring buffer (single producer, single consumer),
//! modelled with a single owner.
//!
//! A bounded queue of audio samples: `push` overwrites the oldest sample
//! when the buffer is full, `pop` yields samples oldest first, and
//! `read_into` fills an output block, padding with silence on underrun.

use vstd::pervasive::VecAdditionalExecFns;
use vstd::prelude::*;

use crate::stream::{is_pow2, lemma_live_mod_distinct};

verus! {

/// Audio ring buffer with a fixed power-of-two capacity `N`.
pub struct AudioRingBuffer<const N: usize> {
    buffer: Vec<i16>,
    write_idx: usize,
    read_idx: usize,
    log: Ghost<Seq<i16>>,
}

impl<const N: usize> AudioRingBuffer<N> {
    /// The samples currently queued, oldest first.
    pub closed spec fn pending(&self) -> Seq<i16> {
        self.log@.subrange(self.read_idx as int, self.write_idx as int)
    }

    /// Representation detail: every queued slot holds its sample.
    pub closed spec fn slots_hold_samples(&self) -> bool {
        forall|i: int|
            self.read_idx <= i < self.write_idx ==> self.buffer[i % (N as int)]
                == #[trigger] self.log@[i]
    }

    /// Structural invariant.
    pub closed spec fn inv(&self) -> bool {
        &&& self.buffer.len() == N
        &&& 0 < N
        &&& is_pow2(N as nat)
        &&& self.log@.len() == self.write_idx
        &&& self.read_idx <= self.write_idx
        &&& self.write_idx - self.read_idx <= N
        &&& self.slots_hold_samples()
    }

    /// Public face of the invariant.
    pub open spec fn wf(&self) -> bool {
        &&& self.inv()
        &&& self.pending().len() <= N
    }

    /// Whether another push is possible without dropping the oldest
    /// sample (used by the overflow contract of `push`).
    pub open spec fn spec_at_capacity(&self) -> bool {
        self.pending().len() == N
    }

    /// Create a new empty buffer.
    pub fn new() -> (r: Self)
        requires
            0 < N,
            is_pow2(N as nat),
        ensures
            r.wf(),
            r.pending() == Seq::<i16>::empty(),
    {
        let mut buffer: Vec<i16> = Vec::new();
        let mut i: usize = 0;
        while i < N
            invariant
                buffer.len() == i,
                i <= N,
            decreases N - i,
        {
            buffer.push(0);
            i = i + 1;
        }
        let r = AudioRingBuffer { buffer, write_idx: 0, read_idx: 0, log: Ghost(Seq::empty()) };
        proof {
            assert(r.pending() =~= Seq::<i16>::empty());
        }
        r
    }

    /// Queue a sample; when the buffer is full the oldest queued sample is
    /// overwritten.
    pub fn push(&mut self, sample: i16)
        requires
            old(self).wf(),
            old(self).spec_write_pos() < usize::MAX,
        ensures
            final(self).wf(),
            final(self).pending() == if old(self).spec_at_capacity() {
                old(self).pending().skip(1).push(sample)
            } else {
                old(self).pending().push(sample)
            },
    {
        let write = self.write_idx;
        let read = self.read_idx;
        if write - read >= N {
            self.read_idx = read + 1;
        }
        let slot = write % N;
        self.buffer.set(slot, sample);
        self.write_idx = write + 1;
        proof {
            self.log@ = self.log@.push(sample);
            let w = write as int;
            assert forall|i: int| self.read_idx <= i < self.write_idx implies self.buffer[i % (
            N as int)] == #[trigger] self.log@[i] by {
                if i == w {
                } else {
                    lemma_live_mod_distinct(i, w, N as int);
                    assert(old(self).buffer[i % (N as int)] == old(self).log@[i]);
                }
            }
            if old(self).spec_at_capacity() {
                assert(self.pending() =~= old(self).pending().skip(1).push(sample));
            } else {
                assert(self.pending() =~= old(self).pending().push(sample));
            }
        }
    }

    /// The producer's logical write position (number of samples ever
    /// pushed).
    pub closed spec fn spec_write_pos(&self) -> usize {
        self.write_idx
    }

    /// Dequeue the oldest sample, or `None` when the buffer is empty.
    pub fn pop(&mut self) -> (r: Option<i16>)
        requires
            old(self).wf(),
        ensures
            final(self).wf(),
            final(self).spec_write_pos() == old(self).spec_write_pos(),
            old(self).pending().len() == 0 ==> r is None && final(self).pending() == old(
                self,
            ).pending(),
            old(self).pending().len() > 0 ==> {
                &&& r == Some(old(self).pending()[0])
                &&& final(self).pending() == old(self).pending().skip(1)
            },
    {
        if self.write_idx == self.read_idx {
            proof {
                assert(self.pending() =~= old(self).pending());
            }
            return None;
        }
        let sample = self.buffer[self.read_idx % N];
        self.read_idx = self.read_idx + 1;
        proof {
            assert(self.pending() =~= old(self).pending().skip(1));
        }
        Some(sample)
    }

    /// Fill `output` from the queue: as many queued samples as fit, oldest
    /// first, and silence (zeros) for the rest.  Returns how many samples
    /// came from the queue.
    pub fn read_into(&mut self, output: &mut [i16]) -> (r: usize)
        requires
            old(self).wf(),
        ensures
            final(self).wf(),
            final(output)@.len() == old(output)@.len(),
            r == if old(self).pending().len() <= old(output)@.len() {
                old(self).pending().len() as int
            } else {
                old(output)@.len() as int
            },
            final(output)@ == old(self).pending().take(r as int) + Seq::new(
                (old(output)@.len() - r) as nat,
                |k: int| 0i16,
            ),
            final(self).pending() == old(self).pending().skip(r as int),
    {
        let n = output.len();
        let mut count: usize = 0;
        let mut i: usize = 0;
        while i < n
            invariant
                i <= n,
                n == old(output)@.len(),
                output@.len() == n,
                self.wf(),
                count == if old(self).pending().len() <= i {
                    old(self).pending().len() as int
                } else {
                    i as int
                },
                self.pending() == old(self).pending().skip(count as int),
                output@ == old(self).pending().take(count as int) + Seq::new(
                    (i - count) as nat,
                    |k: int| 0i16,
                ) + old(output)@.skip(i as int),
            decreases n - i,
        {
            match self.pop() {
                Some(sample) => {
                    output[i] = sample;
                    count = count + 1;
                    proof {
                        assert(self.pending() =~= old(self).pending().skip(count as int));
                        assert(output@ =~= old(self).pending().take(count as int) + Seq::new(
                            ((i + 1) - count) as nat,
                            |k: int| 0i16,
                        ) + old(output)@.skip(i + 1));
                    }
                },
                None => {
                    output[i] = 0;
                    proof {
                        assert(output@ =~= old(self).pending().take(count as int) + Seq::new(
                            ((i + 1) - count) as nat,
                            |k: int| 0i16,
                        ) + old(output)@.skip(i + 1));
                    }
                },
            }
            i = i + 1;
        }
        proof {
            assert(final(output)@ =~= old(self).pending().take(count as int) + Seq::new(
                (n - count) as nat,
                |k: int| 0i16,
            ));
        }
        count
    }

    /// Number of samples currently queued.
    pub fn len(&self) -> (r: usize)
        requires
            self.wf(),
        ensures
            r == self.pending().len(),
    {
        self.write_idx - self.read_idx
    }

    /// Whether the queue is empty.
    pub fn is_empty(&self) -> (r: bool)
        requires
            self.wf(),
        ensures
            r == (self.pending().len() == 0),
    {
        self.write_idx == self.read_idx
    }

    /// How many more samples fit before the oldest is overwritten.
    pub fn available(&self) -> (r: usize)
        requires
            self.wf(),
        ensures
            r == N - self.pending().len(),
    {
        N - (self.write_idx - self.read_idx)
    }

    /// Discard everything queued.
    pub fn clear(&mut self)
        requires
            old(self).wf(),
        ensures
            final(self).wf(),
            final(self).pending() == Seq::<i16>::empty(),
    {
        self.read_idx = self.write_idx;
        proof {
            assert(self.pending() =~= Seq::<i16>::empty());
        }
    }
}

} // verus!
