//! Fixed-capacity sliding window of scalar samples.
//!
//! A `HistoryBuffer` always holds exactly as many samples as it was created
//! with: it is pre-filled with a neutral value, and every `push` appends the
//! newest sample while evicting the oldest (strict FIFO). Pages use it to
//! drive trend rendering; no smoothing or interpolation is applied.

use vstd::prelude::*;

verus! {

/// A window of the most recent samples, oldest first.
///
/// Invariant: the length never changes after construction; it is the
/// capacity the buffer was created with.
pub struct HistoryBuffer<T> {
    samples: Vec<T>,
}

impl<T> View for HistoryBuffer<T> {
    type V = Seq<T>;

    closed spec fn view(&self) -> Seq<T> {
        self.samples@
    }
}

/// The window after one push: the oldest sample leaves at the front and the
/// new sample enters at the back.
pub open spec fn pushed<T>(window: Seq<T>, sample: T) -> Seq<T>
    recommends
        window.len() >= 1,
{
    window.subrange(1, window.len() as int).push(sample)
}

/// The window after a whole sequence of pushes, applied in order.
pub open spec fn pushed_all<T>(window: Seq<T>, samples: Seq<T>) -> Seq<T>
    decreases samples.len(),
{
    if samples.len() == 0 {
        window
    } else {
        pushed(pushed_all(window, samples.drop_last()), samples.last())
    }
}

/// A window of `n` copies of the neutral value: the state of a freshly
/// initialized buffer.
pub open spec fn neutral_window<T>(n: nat, neutral: T) -> Seq<T> {
    Seq::new(n, |i: int| neutral)
}

impl<T: Copy> HistoryBuffer<T> {
    /// A buffer of `capacity` samples, each the neutral value.
    pub fn new(capacity: usize, neutral: T) -> (buf: HistoryBuffer<T>)
        requires
            capacity >= 1,
        ensures
            buf@ == neutral_window(capacity as nat, neutral),
    {
        let mut samples: Vec<T> = Vec::new();
        let mut i: usize = 0;
        while i < capacity
            invariant
                i <= capacity,
                samples@ =~= neutral_window(i as nat, neutral),
            decreases capacity - i,
        {
            samples.push(neutral);
            i = i + 1;
        }
        proof {
            assert(samples@ =~= neutral_window(capacity as nat, neutral));
        }
        HistoryBuffer { samples }
    }

    /// Appends the newest sample and evicts the oldest; the length is
    /// unchanged.
    pub fn push(&mut self, sample: T)
        requires
            old(self)@.len() >= 1,
        ensures
            final(self)@ == pushed(old(self)@, sample),
            final(self)@.len() == old(self)@.len(),
    {
        let _evicted = self.samples.remove(0);
        self.samples.push(sample);
        proof {
            assert(self.samples@ =~= pushed(old(self)@, sample));
        }
    }

    /// How many samples the window holds (its fixed capacity).
    pub fn len(&self) -> (n: usize)
        ensures
            n == self@.len(),
    {
        self.samples.len()
    }

    /// The sample at position `i`, oldest first.
    pub fn get(&self, i: usize) -> (sample: T)
        requires
            i < self@.len(),
        ensures
            sample == self@[i as int],
    {
        self.samples[i]
    }

    /// All samples, oldest first.
    pub fn samples(&self) -> (samples: &Vec<T>)
        ensures
            samples@ == self@,
    {
        &self.samples
    }
}

/// The length of the window never changes, whatever sequence of pushes is
/// applied to it — including the empty sequence.
pub proof fn lemma_len_invariant<T>(window: Seq<T>, samples: Seq<T>)
    requires
        window.len() >= 1,
    ensures
        pushed_all(window, samples).len() == window.len(),
    decreases samples.len(),
{
    if samples.len() > 0 {
        lemma_len_invariant(window, samples.drop_last());
    }
}

/// After any sequence of pushes, the window is the last `window.len()`
/// entries of the initial window followed by the pushed samples, in order.
pub proof fn lemma_sliding_window<T>(window: Seq<T>, samples: Seq<T>)
    requires
        window.len() >= 1,
    ensures
        pushed_all(window, samples) == (window + samples).subrange(
            samples.len() as int,
            samples.len() + window.len() as int,
        ),
    decreases samples.len(),
{
    let n = window.len() as int;
    let k = samples.len() as int;
    if samples.len() == 0 {
        assert(pushed_all(window, samples) =~= (window + samples).subrange(k, k + n));
    } else {
        let front = samples.drop_last();
        lemma_sliding_window(window, front);
        lemma_len_invariant(window, front);
        assert(pushed_all(window, samples) =~= (window + samples).subrange(k, k + n));
    }
}

/// FIFO law. Pushing `k <= n` samples into a freshly initialized buffer of
/// neutral value leaves `n - k` neutral entries followed by the samples in
/// order; pushing `k > n` samples leaves exactly the last `n` samples in
/// order.
pub proof fn lemma_fifo<T>(n: nat, neutral: T, samples: Seq<T>)
    requires
        n >= 1,
    ensures
        samples.len() <= n ==> pushed_all(neutral_window(n, neutral), samples)
            == neutral_window((n - samples.len()) as nat, neutral) + samples,
        samples.len() > n ==> pushed_all(neutral_window(n, neutral), samples)
            == samples.subrange(samples.len() - n, samples.len() as int),
{
    let window = neutral_window(n, neutral);
    let k = samples.len() as int;
    lemma_sliding_window(window, samples);
    if samples.len() <= n {
        assert((window + samples).subrange(k, k + n as int)
            =~= neutral_window((n - samples.len()) as nat, neutral) + samples);
    } else {
        assert((window + samples).subrange(k, k + n as int)
            =~= samples.subrange(k - n as int, k));
    }
}

} // verus!
