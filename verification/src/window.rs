//! The rolling window of recent latencies kept for each resource.

use vstd::prelude::*;

verus! {

/// Number of latency samples a window holds at most.
pub const WINDOW_CAPACITY: usize = 10;

/// The last `n` elements of `s`, or all of `s` where it has no more than `n`.
pub open spec fn keep_last(s: Seq<u64>, n: nat) -> Seq<u64> {
    if s.len() <= n {
        s
    } else {
        s.subrange(s.len() - n, s.len() as int)
    }
}

/// The window that follows `w` once `sample` has been recorded: the sample is
/// appended, and the oldest entry leaves if the capacity would be exceeded.
pub open spec fn rolled(w: Seq<u64>, sample: u64) -> Seq<u64> {
    keep_last(w.push(sample), WINDOW_CAPACITY as nat)
}

/// The window reached from `w` by recording each of `samples` in order.
pub open spec fn replayed(w: Seq<u64>, samples: Seq<u64>) -> Seq<u64>
    decreases samples.len(),
{
    if samples.len() == 0 {
        w
    } else {
        rolled(replayed(w, samples.drop_last()), samples.last())
    }
}

/// Recording one sample never grows a window past its capacity, and a window
/// below capacity grows by exactly the new sample.
pub proof fn lemma_rolled_len(w: Seq<u64>, sample: u64)
    ensures
        rolled(w, sample).len() <= WINDOW_CAPACITY,
        w.len() < WINDOW_CAPACITY ==> rolled(w, sample) == w.push(sample),
        w.len() == WINDOW_CAPACITY ==> rolled(w, sample) == w.remove(0).push(sample),
        rolled(w, sample).len() >= 1,
        rolled(w, sample).last() == sample,
{
    if w.len() == WINDOW_CAPACITY {
        assert(rolled(w, sample) =~= w.remove(0).push(sample));
    }
}

/// However many samples are recorded, the window never exceeds its capacity
/// and holds exactly the most recent entries of the whole history, oldest
/// first: the history being the starting window followed by every sample.
pub proof fn lemma_replayed_keeps_most_recent(w: Seq<u64>, samples: Seq<u64>)
    requires
        w.len() <= WINDOW_CAPACITY,
    ensures
        replayed(w, samples).len() <= WINDOW_CAPACITY,
        replayed(w, samples) == keep_last(w + samples, WINDOW_CAPACITY as nat),
    decreases samples.len(),
{
    if samples.len() == 0 {
        assert(w + samples =~= w);
    } else {
        let front = samples.drop_last();
        lemma_replayed_keeps_most_recent(w, front);
        assert((w + front).push(samples.last()) =~= w + samples);
        assert(replayed(w, samples) =~= keep_last(w + samples, WINDOW_CAPACITY as nat));
    }
}

/// A first-in, first-out record of the most recent latencies, in
/// milliseconds, oldest first.
#[derive(Debug)]
pub struct LatencyWindow {
    samples: Vec<u64>,
}

impl View for LatencyWindow {
    type V = Seq<u64>;

    closed spec fn view(&self) -> Seq<u64> {
        self.samples@
    }
}

impl LatencyWindow {
    #[verifier::type_invariant]
    spec fn within_capacity(&self) -> bool {
        self.samples@.len() <= WINDOW_CAPACITY
    }

    /// An empty window.
    pub fn new() -> (w: LatencyWindow)
        ensures
            w@ == Seq::<u64>::empty(),
    {
        LatencyWindow { samples: Vec::new() }
    }

    /// A window holding `samples`, oldest first, or `None` if there are more
    /// of them than a window can hold.
    pub fn from_samples(samples: Vec<u64>) -> (w: Option<LatencyWindow>)
        ensures
            w is Some <==> samples@.len() <= WINDOW_CAPACITY,
            w matches Some(win) ==> win@ == samples@,
    {
        if samples.len() <= WINDOW_CAPACITY {
            Some(LatencyWindow { samples })
        } else {
            None
        }
    }

    /// Number of samples held.
    pub fn len(&self) -> (n: usize)
        ensures
            n == self@.len(),
            n <= WINDOW_CAPACITY,
    {
        proof {
            use_type_invariant(self);
        }
        self.samples.len()
    }

    /// The samples held, oldest first.
    pub fn samples(&self) -> (s: &Vec<u64>)
        ensures
            s@ == self@,
            s@.len() <= WINDOW_CAPACITY,
    {
        proof {
            use_type_invariant(self);
        }
        &self.samples
    }

    /// Records `sample` as the newest entry, evicting the oldest one when
    /// the window is full.
    pub fn record(&mut self, sample: u64)
        ensures
            final(self)@ == rolled(old(self)@, sample),
    {
        proof {
            use_type_invariant(&*self);
            lemma_rolled_len(self@, sample);
        }
        let mut samples: Vec<u64> = Vec::new();
        core::mem::swap(&mut self.samples, &mut samples);
        if samples.len() == WINDOW_CAPACITY {
            samples.remove(0);
        }
        samples.push(sample);
        core::mem::swap(&mut self.samples, &mut samples);
    }

    /// The window that `record` would leave behind, as a new value.
    pub fn with_sample(&self, sample: u64) -> (w: LatencyWindow)
        ensures
            w@ == rolled(self@, sample),
    {
        let mut w = self.clone();
        w.record(sample);
        w
    }
}

impl Clone for LatencyWindow {
    fn clone(&self) -> (w: LatencyWindow)
        ensures
            w@ == self@,
    {
        proof {
            use_type_invariant(self);
        }
        let samples = self.samples.clone();
        assert(samples@ =~= self.samples@);
        LatencyWindow { samples }
    }
}

} // verus!
