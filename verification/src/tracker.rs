//! Samples and the worst-case tracker: the conversion of raw cycle counts
//! to nanoseconds, the running maximum, and the activation counter that
//! ends a session at its threshold.

use crate::error::ProfilingError;
use vstd::prelude::*;

verus! {

/// One captured measurement. Immutable once captured.
#[derive(Clone, Copy, Debug, PartialEq, Eq, Structural)]
pub struct Sample {
    /// The cycle counter as read at the end event.
    pub cycle_count: u32,
    /// The figure that is reported and folded, in whole nanoseconds. It is
    /// negative only for a timed wakeup that resolved before its nominal
    /// interval had passed.
    pub nanoseconds: i64,
}

/// How a cycle count becomes the reported figure.
#[derive(Clone, Copy, Debug, PartialEq, Eq, Structural)]
pub enum Conversion {
    /// The elapsed time itself.
    Elapsed,
    /// The elapsed time less the nominal interval of a timed wakeup: the
    /// scheduling overhead.
    Overhead { nominal_interval_ns: u32 },
}

/// The time that `cycles` ticks of a clock running at `clock_mhz` MHz take:
/// cycles divided by MHz, times 1000, as an exact quotient rounded down to
/// whole nanoseconds.
pub open spec fn elapsed_ns(cycles: u32, clock_mhz: u32) -> int {
    (cycles as int * 1000) / (clock_mhz as int)
}

/// The nanoseconds that a conversion takes off the elapsed time.
pub open spec fn nominal_ns(conversion: Conversion) -> int {
    match conversion {
        Conversion::Elapsed => 0,
        Conversion::Overhead { nominal_interval_ns } => nominal_interval_ns as int,
    }
}

/// The reported figure for a cycle count.
pub open spec fn converted_ns(conversion: Conversion, cycles: u32, clock_mhz: u32) -> int {
    elapsed_ns(cycles, clock_mhz) - nominal_ns(conversion)
}

/// The elapsed time is never negative and never more than a thousand
/// nanoseconds per cycle.
pub proof fn lemma_elapsed_bounds(cycles: u32, clock_mhz: u32)
    requires
        clock_mhz > 0,
    ensures
        0 <= elapsed_ns(cycles, clock_mhz) <= cycles * 1000,
{
    let total = cycles as int * 1000;
    let rate = clock_mhz as int;
    assert(0 <= total / rate <= total) by (nonlinear_arith)
        requires
            total >= 0,
            rate > 0,
    ;
}

/// The overhead of a timed wakeup is non-negative exactly when the wakeup
/// resolved no earlier than its nominal interval: when the counter advanced
/// by at least the cycles that the interval takes.
pub proof fn lemma_overhead_sign(nominal_interval_ns: u32, cycles: u32, clock_mhz: u32)
    requires
        clock_mhz > 0,
    ensures
        converted_ns(Conversion::Overhead { nominal_interval_ns }, cycles, clock_mhz) >= 0
            <==> cycles * 1000 >= nominal_interval_ns * clock_mhz,
{
    let total = cycles as int * 1000;
    let rate = clock_mhz as int;
    let nominal = nominal_interval_ns as int;
    assert(total / rate >= nominal <==> total >= nominal * rate) by (nonlinear_arith)
        requires
            total >= 0,
            rate > 0,
            nominal >= 0,
    ;
}

impl Sample {
    /// Converts the cycle count read at the end event. Without a configured
    /// clock frequency, that is with `clock_mhz == 0`, there is nothing to
    /// convert with and the result is `UnavailableResource`.
    pub fn capture(conversion: Conversion, cycles: u32, clock_mhz: u32) -> (sample: Result<
        Sample,
        ProfilingError,
    >)
        ensures
            clock_mhz == 0 ==> sample == Err::<Sample, ProfilingError>(
                ProfilingError::UnavailableResource,
            ),
            clock_mhz > 0 ==> sample == Ok::<Sample, ProfilingError>(
                Sample {
                    cycle_count: cycles,
                    nanoseconds: converted_ns(conversion, cycles, clock_mhz) as i64,
                },
            ),
            clock_mhz > 0 ==> i64::MIN <= converted_ns(conversion, cycles, clock_mhz) <= i64::MAX,
    {
        if clock_mhz == 0 {
            return Err(ProfilingError::UnavailableResource);
        }
        proof {
            lemma_elapsed_bounds(cycles, clock_mhz);
        }
        let total: u64 = (cycles as u64) * 1000;
        let elapsed: u64 = total / (clock_mhz as u64);
        let nominal: i64 = match conversion {
            Conversion::Elapsed => 0,
            Conversion::Overhead { nominal_interval_ns } => nominal_interval_ns as i64,
        };
        Ok(Sample { cycle_count: cycles, nanoseconds: (elapsed as i64) - nominal })
    }
}

/// What a tracker holds.
pub struct TrackerState {
    /// The highest figure folded so far, and at least 0.
    pub worst_case_ns: int,
    /// How many samples were folded.
    pub activation_count: nat,
    /// The count at which the session ends.
    pub threshold: nat,
}

/// The larger of two figures.
pub open spec fn higher(a: int, b: int) -> int {
    if a >= b {
        a
    } else {
        b
    }
}

/// The highest of `floor` and all of `samples`.
pub open spec fn highest(floor: int, samples: Seq<int>) -> int
    decreases samples.len(),
{
    if samples.len() == 0 {
        floor
    } else {
        higher(highest(floor, samples.drop_last()), samples.last())
    }
}

impl TrackerState {
    /// The counter never overshoots the threshold.
    pub open spec fn wf(self) -> bool {
        self.activation_count <= self.threshold
    }

    /// The counter has reached the threshold.
    pub open spec fn is_complete(self) -> bool {
        self.activation_count >= self.threshold
    }

    /// The state after folding one sample. A complete tracker takes no more
    /// samples.
    pub open spec fn after_sample(self, nanoseconds: int) -> TrackerState {
        if self.activation_count < self.threshold {
            TrackerState {
                worst_case_ns: higher(self.worst_case_ns, nanoseconds),
                activation_count: self.activation_count + 1,
                threshold: self.threshold,
            }
        } else {
            self
        }
    }

    /// Whether the next sample is the one that brings the counter to the
    /// threshold.
    pub open spec fn completes_on_next(self) -> bool {
        self.activation_count + 1 == self.threshold
    }

    /// The state after folding `samples` in order.
    pub open spec fn after_samples(self, samples: Seq<int>) -> TrackerState
        decreases samples.len(),
    {
        if samples.len() == 0 {
            self
        } else {
            self.after_samples(samples.drop_last()).after_sample(samples.last())
        }
    }
}

/// The figures of a final report.
#[derive(Clone, Copy, Debug, PartialEq, Eq, Structural)]
pub struct FinalReport {
    /// The worst case observed over the session.
    pub worst_case_ns: i64,
    /// The number of samples the session folded: its threshold.
    pub activation_count: u32,
}

/// The running maximum and the activation counter of one profiling target.
/// Purely observational: nothing in it feeds back into what is measured.
#[derive(Clone, Copy, Debug)]
pub struct WorstCaseTracker {
    worst_case_ns: i64,
    activation_count: u32,
    threshold: u32,
}

impl View for WorstCaseTracker {
    type V = TrackerState;

    closed spec fn view(&self) -> TrackerState {
        TrackerState {
            worst_case_ns: self.worst_case_ns as int,
            activation_count: self.activation_count as nat,
            threshold: self.threshold as nat,
        }
    }
}

impl WorstCaseTracker {
    #[verifier::type_invariant]
    spec fn within_threshold(self) -> bool {
        self.activation_count <= self.threshold && self.worst_case_ns >= 0
    }

    /// A tracker that has folded nothing: worst case 0, count 0.
    pub fn new(threshold: u32) -> (tracker: Self)
        ensures
            tracker@ == (TrackerState {
                worst_case_ns: 0,
                activation_count: 0,
                threshold: threshold as nat,
            }),
            tracker@.wf(),
    {
        WorstCaseTracker { worst_case_ns: 0, activation_count: 0, threshold }
    }

    /// Folds one sample: the worst case becomes the larger of itself and
    /// `nanoseconds`, and the counter goes up by one. Returns whether this
    /// sample brought the counter to the threshold. A tracker that is
    /// already complete stays as it is and returns `false`.
    pub fn record(&mut self, nanoseconds: i64) -> (reached: bool)
        ensures
            final(self)@ == old(self)@.after_sample(nanoseconds as int),
            final(self)@.worst_case_ns >= old(self)@.worst_case_ns,
            final(self)@.wf(),
            reached == old(self)@.completes_on_next(),
    {
        proof {
            use_type_invariant(&*self);
        }
        if self.activation_count < self.threshold {
            if nanoseconds > self.worst_case_ns {
                self.worst_case_ns = nanoseconds;
            }
            self.activation_count = self.activation_count + 1;
            self.activation_count == self.threshold
        } else {
            false
        }
    }

    /// The worst case observed so far, in nanoseconds; never negative.
    pub fn worst_case_ns(&self) -> (worst: i64)
        ensures
            worst == self@.worst_case_ns,
            worst >= 0,
    {
        proof {
            use_type_invariant(self);
        }
        self.worst_case_ns
    }

    /// How many samples were folded; never more than the threshold.
    pub fn activation_count(&self) -> (count: u32)
        ensures
            count == self@.activation_count,
            count <= self@.threshold,
    {
        proof {
            use_type_invariant(self);
        }
        self.activation_count
    }

    /// The count at which the session ends.
    pub fn threshold(&self) -> (threshold: u32)
        ensures
            threshold == self@.threshold,
    {
        self.threshold
    }

    /// Whether the counter has reached the threshold.
    pub fn is_complete(&self) -> (complete: bool)
        ensures
            complete == self@.is_complete(),
    {
        self.activation_count >= self.threshold
    }

    /// The figures for the final record of the session.
    pub fn report(&self) -> (report: FinalReport)
        ensures
            report.worst_case_ns == self@.worst_case_ns,
            report.activation_count == self@.activation_count,
    {
        FinalReport { worst_case_ns: self.worst_case_ns, activation_count: self.activation_count }
    }
}

/// Folding a sample never lowers the worst case, never lowers the counter,
/// and never takes the counter past the threshold.
pub proof fn lemma_fold_is_monotonic(tracker: TrackerState, nanoseconds: int)
    ensures
        tracker.after_sample(nanoseconds).worst_case_ns >= tracker.worst_case_ns,
        tracker.after_sample(nanoseconds).activation_count >= tracker.activation_count,
        tracker.after_sample(nanoseconds).threshold == tracker.threshold,
        tracker.wf() ==> tracker.after_sample(nanoseconds).wf(),
{
}

/// Over a run the worst case never decreases, and the counter ends at the
/// number of samples offered or at the threshold, whichever is less.
pub proof fn lemma_run_is_monotonic(tracker: TrackerState, samples: Seq<int>)
    requires
        tracker.wf(),
    ensures
        tracker.after_samples(samples).wf(),
        tracker.after_samples(samples).threshold == tracker.threshold,
        tracker.after_samples(samples).worst_case_ns >= tracker.worst_case_ns,
        tracker.after_samples(samples).activation_count == if tracker.activation_count
            + samples.len() <= tracker.threshold {
            tracker.activation_count + samples.len()
        } else {
            tracker.threshold
        },
    decreases samples.len(),
{
    if samples.len() > 0 {
        lemma_run_is_monotonic(tracker, samples.drop_last());
    }
}

/// After a run that stays within the threshold, the worst case is the
/// maximum of what it was before and all samples of the run: no sample is
/// above it, and it is the earlier worst case or one of the samples.
pub proof fn lemma_worst_case_is_maximum(tracker: TrackerState, samples: Seq<int>)
    requires
        tracker.activation_count + samples.len() <= tracker.threshold,
    ensures
        tracker.after_samples(samples).worst_case_ns == highest(tracker.worst_case_ns, samples),
        forall|i: int|
            0 <= i < samples.len() ==> samples[i] <= tracker.after_samples(samples).worst_case_ns,
        tracker.after_samples(samples).worst_case_ns == tracker.worst_case_ns || exists|i: int|
            0 <= i < samples.len() && samples[i] == tracker.after_samples(samples).worst_case_ns,
    decreases samples.len(),
{
    if samples.len() > 0 {
        let earlier = samples.drop_last();
        lemma_worst_case_is_maximum(tracker, earlier);
        lemma_run_is_monotonic(tracker, earlier);
        let mid = tracker.after_samples(earlier);
        let after = mid.after_sample(samples.last());
        assert(tracker.after_samples(samples) == after);
        assert forall|i: int| 0 <= i < samples.len() implies samples[i] <= after.worst_case_ns by {
            if i < earlier.len() {
                assert(earlier[i] == samples[i]);
            }
        }
        if after.worst_case_ns != tracker.worst_case_ns {
            if after.worst_case_ns == mid.worst_case_ns {
                let i = choose|i: int|
                    0 <= i < earlier.len() && earlier[i] == mid.worst_case_ns;
                assert(samples[i] == after.worst_case_ns);
            } else {
                assert(samples[samples.len() - 1] == after.worst_case_ns);
            }
        }
    }
}

/// A fresh tracker that is given at least one sample, none of them
/// negative, and no more than its threshold, ends with exactly the maximum
/// of the samples.
pub proof fn lemma_fresh_worst_case_is_sample_maximum(threshold: nat, samples: Seq<int>)
    requires
        0 < samples.len() <= threshold,
        forall|i: int| 0 <= i < samples.len() ==> samples[i] >= 0,
    ensures
        forall|i: int|
            0 <= i < samples.len() ==> samples[i] <= (TrackerState {
                worst_case_ns: 0,
                activation_count: 0,
                threshold,
            }).after_samples(samples).worst_case_ns,
        exists|i: int|
            0 <= i < samples.len() && samples[i] == (TrackerState {
                worst_case_ns: 0,
                activation_count: 0,
                threshold,
            }).after_samples(samples).worst_case_ns,
{
    let fresh = TrackerState { worst_case_ns: 0, activation_count: 0, threshold };
    lemma_worst_case_is_maximum(fresh, samples);
    let worst = fresh.after_samples(samples).worst_case_ns;
    if worst == 0 {
        assert(samples[0] <= 0);
        assert(samples[0] == worst);
    }
}

} // verus!
