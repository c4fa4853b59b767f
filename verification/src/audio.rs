//! Audio sample buffers: a growing buffer, and a fixed-capacity ring that
//! keeps the most recent samples.
//!
//! Samples are of any copyable type; the recorder stores `f32` samples.

use vstd::prelude::*;
use std::collections::VecDeque;

verus! {

/// The last `n` elements of `s` (all of them when there are fewer).
pub open spec fn last_n<T>(s: Seq<T>, n: nat) -> Seq<T> {
    if s.len() > n {
        s.skip(s.len() - n)
    } else {
        s
    }
}

/// A buffer that collects samples in order.
pub struct AudioBuffer<T> {
    samples: Vec<T>,
}

impl<T: Copy> AudioBuffer<T> {
    /// The samples collected.
    pub closed spec fn contents(&self) -> Seq<T> {
        self.samples@
    }

    /// An empty buffer.
    pub fn new() -> (r: Self)
        ensures
            r.contents() == Seq::<T>::empty(),
    {
        AudioBuffer { samples: Vec::new() }
    }

    /// Appends a sample.
    pub fn push(&mut self, sample: T)
        ensures
            final(self).contents() == old(self).contents().push(sample),
    {
        self.samples.push(sample);
    }

    /// Removes every sample.
    pub fn clear(&mut self)
        ensures
            final(self).contents() == Seq::<T>::empty(),
    {
        self.samples.clear();
    }

    /// The samples, in order.
    pub fn as_slice(&self) -> (r: &[T])
        ensures
            r@ == self.contents(),
    {
        self.samples.as_slice()
    }
}

/// A fixed-capacity buffer that keeps the most recent samples.
#[derive(Debug, Clone)]
pub struct AudioRingBuffer<T> {
    capacity: usize,
    samples: VecDeque<T>,
}

impl<T: Copy> AudioRingBuffer<T> {
    /// At least one sample fits, and no more are held than fit.
    pub closed spec fn wf(&self) -> bool {
        self.capacity >= 1 && self.samples@.len() <= self.capacity
    }

    /// The samples held, oldest first.
    pub closed spec fn contents(&self) -> Seq<T> {
        self.samples@
    }

    /// How many samples fit.
    pub closed spec fn cap(&self) -> nat {
        self.capacity as nat
    }

    /// An empty ring for `capacity` samples (at least one).
    pub fn with_capacity(capacity: usize) -> (r: Self)
        ensures
            r.wf(),
            r.contents() == Seq::<T>::empty(),
            r.cap() == if capacity == 0 { 1 } else { capacity as nat },
    {
        let cap: usize = if capacity == 0 { 1 } else { capacity };
        AudioRingBuffer { capacity: cap, samples: VecDeque::with_capacity(cap) }
    }

    /// The number of samples held.
    pub fn len(&self) -> (r: usize)
        ensures
            r == self.contents().len(),
    {
        self.samples.len()
    }

    /// How many samples fit.
    pub fn capacity(&self) -> (r: usize)
        ensures
            r == self.cap(),
    {
        self.capacity
    }

    /// Whether no sample is held.
    pub fn is_empty(&self) -> (r: bool)
        ensures
            r == (self.contents().len() == 0),
    {
        self.samples.len() == 0
    }

    /// Removes every sample.
    pub fn clear(&mut self)
        requires
            old(self).wf(),
        ensures
            final(self).wf(),
            final(self).cap() == old(self).cap(),
            final(self).contents() == Seq::<T>::empty(),
    {
        self.samples.clear();
    }

    /// Adds a sample, dropping the oldest one when full.
    pub fn push_sample(&mut self, sample: T)
        requires
            old(self).wf(),
        ensures
            final(self).wf(),
            final(self).cap() == old(self).cap(),
            final(self).contents() == last_n(old(self).contents().push(sample), old(self).cap()),
    {
        let ghost before = self.samples@;
        if self.samples.len() == self.capacity {
            self.samples.pop_front();
        }
        self.samples.push_back(sample);
        assert(self.samples@ =~= last_n(before.push(sample), self.capacity as nat));
    }

    /// Adds samples in order; the ring then holds the latest `capacity`
    /// samples of what it held followed by `samples`.
    pub fn push_samples(&mut self, samples: &[T])
        requires
            old(self).wf(),
        ensures
            final(self).wf(),
            final(self).cap() == old(self).cap(),
            final(self).contents() == last_n(old(self).contents() + samples@, old(self).cap()),
    {
        let ghost before = self.samples@;
        let cap = self.capacity;
        if samples.len() >= cap {
            self.samples.clear();
            let start = samples.len() - cap;
            let mut i = start;
            while i < samples.len()
                invariant
                    start <= i <= samples@.len(),
                    start == samples@.len() - cap,
                    cap == self.capacity,
                    self.samples@ == samples@.subrange(start as int, i as int),
                decreases samples@.len() - i,
            {
                self.samples.push_back(samples[i]);
                assert(self.samples@ =~= samples@.subrange(start as int, i + 1));
                i = i + 1;
            }
            assert(self.samples@ =~= last_n(before + samples@, cap as nat));
            return;
        }
        let room = cap - samples.len();
        let held = self.samples.len();
        let overflow: usize = if held > room { held - room } else { 0 };
        let mut k: usize = 0;
        while k < overflow
            invariant
                k <= overflow,
                overflow <= before.len(),
                cap == self.capacity,
                self.samples@ == before.skip(k as int),
            decreases overflow - k,
        {
            self.samples.pop_front();
            assert(before.skip(k as int).subrange(1, before.skip(k as int).len() as int) =~= before.skip(
                k + 1,
            ));
            k = k + 1;
        }
        let mut i: usize = 0;
        while i < samples.len()
            invariant
                i <= samples@.len(),
                cap == self.capacity,
                self.samples@ == before.skip(overflow as int) + samples@.take(i as int),
            decreases samples@.len() - i,
        {
            self.samples.push_back(samples[i]);
            assert(self.samples@ =~= before.skip(overflow as int) + samples@.take(i + 1));
            i = i + 1;
        }
        assert(samples@.take(samples@.len() as int) =~= samples@);
        assert(self.samples@ =~= last_n(before + samples@, cap as nat));
    }

    /// The samples held, oldest first.
    pub fn snapshot(&self) -> (r: Vec<T>)
        ensures
            r@ == self.contents(),
    {
        let mut out: Vec<T> = Vec::new();
        let mut i: usize = 0;
        while i < self.samples.len()
            invariant
                i <= self.samples@.len(),
                out@ == self.samples@.take(i as int),
            decreases self.samples@.len() - i,
        {
            out.push(self.samples[i]);
            assert(out@ =~= self.samples@.take(i + 1));
            i = i + 1;
        }
        assert(self.samples@.take(self.samples@.len() as int) =~= self.samples@);
        out
    }

    /// The latest `count` samples held (all of them when there are fewer).
    pub fn tail(&self, count: usize) -> (r: Vec<T>)
        ensures
            r@ == last_n(self.contents(), count as nat),
    {
        let n = self.samples.len();
        if count >= n {
            return self.snapshot();
        }
        let start = n - count;
        let mut out: Vec<T> = Vec::new();
        let mut i: usize = start;
        while i < n
            invariant
                start <= i <= n,
                n == self.samples@.len(),
                out@ == self.samples@.subrange(start as int, i as int),
            decreases n - i,
        {
            out.push(self.samples[i]);
            assert(out@ =~= self.samples@.subrange(start as int, i + 1));
            i = i + 1;
        }
        assert(out@ =~= last_n(self.samples@, count as nat));
        out
    }
}

/// Pushing in two steps keeps what pushing everything at once keeps: the
/// ring always holds the latest `cap` samples pushed.
pub proof fn law_ring_keeps_latest_window<T>(held: Seq<T>, a: Seq<T>, b: Seq<T>, cap: nat)
    ensures
        last_n(last_n(held + a, cap) + b, cap) == last_n(held + a + b, cap),
{
    let x = held + a;
    let y = last_n(x, cap);
    assert((x + b).len() == x.len() + b.len());
    if x.len() > cap {
        assert(y =~= x.skip(x.len() - cap));
        if (y + b).len() > cap {
            assert((y + b).skip((y + b).len() - cap) =~= (x + b).skip((x + b).len() - cap));
        }
    }
    assert(last_n(y + b, cap) =~= last_n(x + b, cap));
    assert(held + a + b =~= x + b);
}

} // verus!
