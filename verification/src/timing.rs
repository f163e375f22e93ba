//! Timing of benchmark runs: assembling time-stamp counter readings and
//! accumulating the per-run statistics (total, maximum, minimum) over the
//! iterations of one implementation.

use vstd::prelude::*;

verus! {

/// The 64-bit value whose high half is `hi` and low half is `lo`, as
/// `rdtsc` and `xgetbv` return it in `edx:eax`.
pub fn tsc_from_halves(lo: u32, hi: u32) -> (r: u64)
    ensures
        r == hi * 0x1_0000_0000 + lo,
{
    let l = lo as u64;
    let h = hi as u64;
    let r = l | (h << 32u64);
    assert(r == h * 0x1_0000_0000 + l) by (bit_vector)
        requires
            l < 0x1_0000_0000,
            h < 0x1_0000_0000,
            r == l | (h << 32u64),
    ;
    r
}

/// The sum of the samples.
pub open spec fn sample_total(s: Seq<u64>) -> int
    decreases s.len(),
{
    if s.len() == 0 {
        0
    } else {
        sample_total(s.drop_last()) + s.last()
    }
}

/// The largest sample, 0 where there is none.
pub open spec fn sample_max(s: Seq<u64>) -> u64
    decreases s.len(),
{
    if s.len() == 0 {
        0
    } else {
        let m = sample_max(s.drop_last());
        if s.last() > m {
            s.last()
        } else {
            m
        }
    }
}

/// The smallest sample, `u64::MAX` where there is none.
pub open spec fn sample_min(s: Seq<u64>) -> u64
    decreases s.len(),
{
    if s.len() == 0 {
        u64::MAX
    } else {
        let m = sample_min(s.drop_last());
        if s.last() < m {
            s.last()
        } else {
            m
        }
    }
}

/// What the benchmark loop does next.
#[derive(Clone, Copy, Debug, PartialEq, Eq, Structural)]
pub enum Step {
    /// Time one more call of the implementation and pass the outcome to `advance`.
    Measure,
    /// The implementation is not available: report nothing for it.
    Skip,
    /// All iterations are done: report the statistics.
    Report,
}

/// The statistics of the iterations of one implementation measured so far.
pub struct TimingStats {
    iterations: usize,
    count: usize,
    total: u128,
    max: u64,
    min: u64,
    samples: Ghost<Seq<u64>>,
}

impl TimingStats {
    #[verifier::type_invariant]
    spec fn well_formed(self) -> bool {
        &&& self.count == self.samples@.len()
        &&& self.count <= self.iterations
        &&& self.total == sample_total(self.samples@)
        &&& self.max == sample_max(self.samples@)
        &&& self.min == sample_min(self.samples@)
    }

    /// The samples recorded so far, in order.
    pub closed spec fn samples(self) -> Seq<u64> {
        self.samples@
    }

    /// The number of iterations to be measured.
    pub closed spec fn spec_iterations(self) -> nat {
        self.iterations as nat
    }

    /// Statistics for `iterations` runs, and the first step: with no
    /// iterations to run, the (empty) statistics are reported at once.
    pub fn start(iterations: usize) -> (r: (TimingStats, Step))
        ensures
            r.0.samples() == Seq::<u64>::empty(),
            r.0.spec_iterations() == iterations,
            r.1 == (if iterations == 0 { Step::Report } else { Step::Measure }),
    {
        let stats = TimingStats {
            iterations,
            count: 0,
            total: 0,
            max: 0,
            min: u64::MAX,
            samples: Ghost(Seq::empty()),
        };
        let step = if iterations == 0 {
            Step::Report
        } else {
            Step::Measure
        };
        (stats, step)
    }

    /// Takes the outcome of one measurement: `None` where the implementation
    /// was not available, which ends the run without a report; otherwise
    /// the elapsed ticks, which are recorded. Then asks for the next
    /// measurement until all iterations are recorded.
    pub fn advance(&mut self, outcome: Option<u64>) -> (step: Step)
        requires
            old(self).samples().len() < old(self).spec_iterations(),
        ensures
            final(self).spec_iterations() == old(self).spec_iterations(),
            match outcome {
                None => {
                    &&& step == Step::Skip
                    &&& final(self).samples() == old(self).samples()
                },
                Some(t) => {
                    &&& final(self).samples() == old(self).samples().push(t)
                    &&& step == if final(self).samples().len() == final(self).spec_iterations() {
                        Step::Report
                    } else {
                        Step::Measure
                    }
                },
            },
    {
        proof {
            use_type_invariant(&*self);
        }
        match outcome {
            None => Step::Skip,
            Some(t) => {
                let ghost new_samples = self.samples@.push(t);
                proof {
                    lemma_total_bound(self.samples@);
                    assert(new_samples.drop_last() =~= self.samples@);
                }
                assert(self.total + t < 0x1_0000_0000_0000_0000_0000_0000_0000_0000) by (nonlinear_arith)
                    requires
                        self.total <= self.samples@.len() * 0xFFFF_FFFF_FFFF_FFFFint,
                        self.samples@.len() < self.iterations,
                        self.iterations <= usize::MAX,
                        usize::MAX <= 0xFFFF_FFFF_FFFF_FFFFint,
                        t <= 0xFFFF_FFFF_FFFF_FFFFint,
                ;
                let new_max = if t > self.max {
                    t
                } else {
                    self.max
                };
                let new_min = if t < self.min {
                    t
                } else {
                    self.min
                };
                *self = TimingStats {
                    iterations: self.iterations,
                    count: self.count + 1,
                    total: self.total + t as u128,
                    max: new_max,
                    min: new_min,
                    samples: Ghost(new_samples),
                };
                if self.count == self.iterations {
                    Step::Report
                } else {
                    Step::Measure
                }
            },
        }
    }

    /// The number of iterations to be measured.
    pub fn iterations(&self) -> (r: usize)
        ensures
            r == self.spec_iterations(),
    {
        self.iterations
    }

    /// The number of samples recorded.
    pub fn count(&self) -> (r: usize)
        ensures
            r == self.samples().len(),
    {
        proof {
            use_type_invariant(self);
        }
        self.count
    }

    /// The sum of the recorded samples.
    pub fn total(&self) -> (r: u128)
        ensures
            r == sample_total(self.samples()),
    {
        proof {
            use_type_invariant(self);
        }
        self.total
    }

    /// The largest recorded sample, 0 where none is recorded.
    pub fn max(&self) -> (r: u64)
        ensures
            r == sample_max(self.samples()),
    {
        proof {
            use_type_invariant(self);
        }
        self.max
    }

    /// The smallest recorded sample, `u64::MAX` where none is recorded.
    pub fn min(&self) -> (r: u64)
        ensures
            r == sample_min(self.samples()),
    {
        proof {
            use_type_invariant(self);
        }
        self.min
    }
}

/// The total of `n` samples is at most `n` times the largest `u64`.
pub proof fn lemma_total_bound(s: Seq<u64>)
    ensures
        0 <= sample_total(s) <= s.len() * 0xFFFF_FFFF_FFFF_FFFFint,
    decreases s.len(),
{
    if s.len() > 0 {
        lemma_total_bound(s.drop_last());
    }
}

/// Every sample lies between the minimum and the maximum, and both are
/// samples themselves where there is one.
pub proof fn lemma_min_max_bound_samples(s: Seq<u64>)
    ensures
        forall|i: int| 0 <= i < s.len() ==> sample_min(s) <= #[trigger] s[i] <= sample_max(s),
        s.len() > 0 ==> s.contains(sample_min(s)) && s.contains(sample_max(s)),
    decreases s.len(),
{
    if s.len() > 0 {
        let p = s.drop_last();
        lemma_min_max_bound_samples(p);
        assert forall|i: int| 0 <= i < s.len() implies sample_min(s) <= #[trigger] s[i]
            <= sample_max(s) by {
            if i < s.len() - 1 {
                assert(s[i] == p[i]);
            }
        }
        if p.len() > 0 {
            let a = choose|i: int| 0 <= i < p.len() && p[i] == sample_min(p);
            let b = choose|i: int| 0 <= i < p.len() && p[i] == sample_max(p);
            assert(s[a] == p[a]);
            assert(s[b] == p[b]);
        }
        assert(s[s.len() - 1] == s.last());
    }
}

/// Recording one more sample adds it to the total, raises the maximum to it
/// where it is larger and lowers the minimum to it where it is smaller.
pub proof fn lemma_record_sample(s: Seq<u64>, t: u64)
    ensures
        sample_total(s.push(t)) == sample_total(s) + t,
        sample_max(s.push(t)) == (if t > sample_max(s) { t } else { sample_max(s) }),
        sample_min(s.push(t)) == (if t < sample_min(s) { t } else { sample_min(s) }),
{
    assert(s.push(t).drop_last() =~= s);
}

/// The total of the samples is their sum in any split: the total of a
/// concatenation is the sum of the totals.
pub proof fn lemma_total_of_concat(a: Seq<u64>, b: Seq<u64>)
    ensures
        sample_total(a + b) == sample_total(a) + sample_total(b),
    decreases b.len(),
{
    if b.len() == 0 {
        assert(a + b =~= a);
    } else {
        lemma_total_of_concat(a, b.drop_last());
        assert((a + b).drop_last() =~= a + b.drop_last());
    }
}

/// The total of a single sample is that sample, and of none is 0.
pub proof fn lemma_total_base(t: u64)
    ensures
        sample_total(Seq::<u64>::empty()) == 0,
        sample_total(seq![t]) == t,
{
    assert(seq![t].drop_last() =~= Seq::<u64>::empty());
}

} // verus!
