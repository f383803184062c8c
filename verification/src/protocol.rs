//! The measurement protocol: the state machine that one profiling target
//! runs through, trial after trial, until its activation counter reaches the
//! threshold.
//!
//! The session decides; its caller performs. Each accepted event moves the
//! session on and returns the action that the new phase asks for.

use crate::error::ProfilingError;
use crate::tracker::{
    converted_ns, Conversion, FinalReport, Sample, TrackerState, WorstCaseTracker,
};
use vstd::prelude::*;

verus! {

/// Where a session stands within a trial.
#[derive(Clone, Copy, Debug, PartialEq, Eq, Structural)]
pub enum Phase {
    /// Ready for the start event, at which the cycle counter is reset.
    Armed,
    /// The consumer is suspended until the end event.
    Waiting,
    /// The cycle counter was read once and converted.
    Captured,
    /// The sample was folded; the inter-trial delay runs.
    Accumulated,
    /// The counter reached the threshold. Final.
    Terminated,
}

/// What the caller reports to the session.
#[derive(Clone, Copy, Debug, PartialEq, Eq, Structural)]
pub enum Event {
    /// The cycle counter was reset and the start event fired.
    StartFired,
    /// The end event occurred and the cycle counter read `cycles`.
    EndObserved { cycles: u32 },
    /// The record of the captured sample was emitted.
    SampleLogged,
    /// The inter-trial delay has elapsed.
    DelayElapsed,
}

/// What the session asks its caller to do.
#[derive(Clone, Copy, Debug, PartialEq, Eq, Structural)]
pub enum Action {
    /// Reset the cycle counter and fire the start event, as one atomic step.
    ResetAndTrigger,
    /// Suspend until the end event, then read the cycle counter.
    Suspend,
    /// Emit the record of this trial.
    LogSample(Sample),
    /// Wait for the inter-trial delay.
    Delay,
    /// Emit the final record and stop the process.
    Halt(FinalReport),
}

/// The final report of a tracker.
pub open spec fn report_of(tracker: TrackerState) -> FinalReport {
    FinalReport {
        worst_case_ns: tracker.worst_case_ns as i64,
        activation_count: tracker.activation_count as u32,
    }
}

/// What a session is.
pub struct SessionState {
    /// The phase of the current trial.
    pub phase: Phase,
    /// The worst case, the counter and the threshold.
    pub tracker: TrackerState,
    /// The core clock frequency, in MHz.
    pub clock_mhz: u32,
    /// How cycle counts become reported figures.
    pub conversion: Conversion,
    /// The sample that waits to be folded, in phase `Captured`.
    pub captured: Option<Sample>,
}

impl SessionState {
    /// What holds of every session: the clock is configured, the counter
    /// has not overshot the threshold, the session is terminated exactly
    /// when the counter has reached the threshold, and a sample waits
    /// exactly in phase `Captured`.
    pub open spec fn wf(self) -> bool {
        &&& self.clock_mhz > 0
        &&& self.tracker.wf()
        &&& self.tracker.threshold <= u32::MAX
        &&& 0 <= self.tracker.worst_case_ns <= i64::MAX
        &&& (self.phase == Phase::Terminated <==> self.tracker.is_complete())
        &&& (self.phase == Phase::Captured <==> self.captured.is_some())
    }

    /// Whether `event` is the one that the current phase waits for.
    pub open spec fn accepts(self, event: Event) -> bool {
        match (self.phase, event) {
            (Phase::Armed, Event::StartFired) => true,
            (Phase::Waiting, Event::EndObserved { .. }) => true,
            (Phase::Captured, Event::SampleLogged) => self.captured.is_some(),
            (Phase::Accumulated, Event::DelayElapsed) => true,
            _ => false,
        }
    }

    /// The sample that a cycle count is captured as.
    pub open spec fn sample_of(self, cycles: u32) -> Sample {
        Sample {
            cycle_count: cycles,
            nanoseconds: converted_ns(self.conversion, cycles, self.clock_mhz) as i64,
        }
    }

    /// The state that an accepted event leads to. Folding the captured
    /// sample leads to `Terminated` if and only if it brings the counter to
    /// the threshold, and to `Accumulated` otherwise.
    pub open spec fn next(self, event: Event) -> SessionState {
        match (self.phase, event) {
            (Phase::Armed, Event::StartFired) => SessionState { phase: Phase::Waiting, ..self },
            (Phase::Waiting, Event::EndObserved { cycles }) => SessionState {
                phase: Phase::Captured,
                captured: Some(self.sample_of(cycles)),
                ..self
            },
            (Phase::Captured, Event::SampleLogged) => {
                let tracker = self.tracker.after_sample(self.captured.unwrap().nanoseconds as int);
                SessionState {
                    phase: if tracker.is_complete() {
                        Phase::Terminated
                    } else {
                        Phase::Accumulated
                    },
                    tracker,
                    captured: None,
                    ..self
                }
            },
            (Phase::Accumulated, Event::DelayElapsed) => SessionState {
                phase: Phase::Armed,
                ..self
            },
            _ => self,
        }
    }

    /// What the current phase asks the caller to do.
    pub open spec fn pending_action(self) -> Action {
        match self.phase {
            Phase::Armed => Action::ResetAndTrigger,
            Phase::Waiting => Action::Suspend,
            Phase::Captured => Action::LogSample(self.captured.unwrap()),
            Phase::Accumulated => Action::Delay,
            Phase::Terminated => Action::Halt(report_of(self.tracker)),
        }
    }

    /// One step of the machine: an accepted event moves the session on and
    /// yields the action of the phase it enters; any other event changes
    /// nothing and yields no action.
    pub open spec fn step(self, event: Event) -> (SessionState, Option<Action>) {
        if self.accepts(event) {
            (self.next(event), Some(self.next(event).pending_action()))
        } else {
            (self, None)
        }
    }

    /// The state after a whole trial that reads `cycles` at its end event:
    /// start, end, log, and the inter-trial delay unless the session
    /// terminated. Only an armed session runs a trial.
    pub open spec fn after_trial(self, cycles: u32) -> SessionState {
        if self.phase == Phase::Armed {
            let folded = self.next(Event::StartFired).next(Event::EndObserved { cycles }).next(
                Event::SampleLogged,
            );
            folded.next(Event::DelayElapsed)
        } else {
            self
        }
    }
}

impl SessionState {
    /// The state after one whole trial for each of `cycles`, in order.
    pub open spec fn after_trials(self, cycles: Seq<u32>) -> SessionState
        decreases cycles.len(),
    {
        if cycles.len() == 0 {
            self
        } else {
            self.after_trials(cycles.drop_last()).after_trial(cycles.last())
        }
    }

    /// The reported figures of the cycle counts `cycles`.
    pub open spec fn converted(self, cycles: Seq<u32>) -> Seq<int> {
        Seq::new(cycles.len(), |i: int| self.sample_of(cycles[i]).nanoseconds as int)
    }
}

/// What one whole trial produced.
#[derive(Clone, Copy, Debug, PartialEq, Eq, Structural)]
pub struct TrialOutcome {
    /// The sample of the trial.
    pub sample: Sample,
    /// The final report, if this trial ended the session.
    pub halt: Option<FinalReport>,
}

/// The profiling session of one target: tracker, threshold, conversion and
/// the phase of the current trial.
pub struct ProfilingSession {
    phase: Phase,
    tracker: WorstCaseTracker,
    clock_mhz: u32,
    conversion: Conversion,
    captured: Option<Sample>,
}

impl View for ProfilingSession {
    type V = SessionState;

    closed spec fn view(&self) -> SessionState {
        SessionState {
            phase: self.phase,
            tracker: self.tracker@,
            clock_mhz: self.clock_mhz,
            conversion: self.conversion,
            captured: self.captured,
        }
    }
}

impl ProfilingSession {
    #[verifier::type_invariant]
    spec fn valid(self) -> bool {
        self@.wf()
    }

    /// A session at the start of its first trial, with nothing folded. A
    /// threshold of 0 leaves nothing to measure: such a session is
    /// terminated from the start. Without a configured clock frequency,
    /// that is with `clock_mhz == 0`, the result is `UnavailableResource`.
    pub fn new(threshold: u32, clock_mhz: u32, conversion: Conversion) -> (session: Result<
        Self,
        ProfilingError,
    >)
        ensures
            clock_mhz == 0 ==> (session matches Err(e) && e == ProfilingError::UnavailableResource),
            clock_mhz > 0 ==> (session matches Ok(s) && s@.wf() && s@ == (SessionState {
                phase: if threshold == 0 {
                    Phase::Terminated
                } else {
                    Phase::Armed
                },
                tracker: TrackerState {
                    worst_case_ns: 0,
                    activation_count: 0,
                    threshold: threshold as nat,
                },
                clock_mhz,
                conversion,
                captured: None,
            })),
    {
        if clock_mhz == 0 {
            return Err(ProfilingError::UnavailableResource);
        }
        let phase = if threshold == 0 {
            Phase::Terminated
        } else {
            Phase::Armed
        };
        Ok(
            ProfilingSession {
                phase,
                tracker: WorstCaseTracker::new(threshold),
                clock_mhz,
                conversion,
                captured: None,
            },
        )
    }

    /// The phase of the current trial.
    pub fn phase(&self) -> (phase: Phase)
        ensures
            phase == self@.phase,
    {
        self.phase
    }

    /// Whether the session has reached its terminal state.
    pub fn is_terminated(&self) -> (terminated: bool)
        ensures
            terminated == (self@.phase == Phase::Terminated),
            terminated == self@.tracker.is_complete(),
    {
        proof {
            use_type_invariant(self);
        }
        self.tracker.is_complete()
    }

    /// The running worst case, in nanoseconds.
    pub fn worst_case_ns(&self) -> (worst: i64)
        ensures
            worst == self@.tracker.worst_case_ns,
    {
        self.tracker.worst_case_ns()
    }

    /// How many trials were completed.
    pub fn activation_count(&self) -> (count: u32)
        ensures
            count == self@.tracker.activation_count,
            count <= self@.tracker.threshold,
    {
        proof {
            use_type_invariant(self);
        }
        self.tracker.activation_count()
    }

    /// The number of trials after which the session ends.
    pub fn threshold(&self) -> (threshold: u32)
        ensures
            threshold == self@.tracker.threshold,
    {
        self.tracker.threshold()
    }

    /// What the current phase asks the caller to do. On a fresh session this
    /// is the first thing to do.
    pub fn pending_action(&self) -> (action: Action)
        ensures
            action == self@.pending_action(),
    {
        proof {
            use_type_invariant(self);
        }
        match self.phase {
            Phase::Armed => Action::ResetAndTrigger,
            Phase::Waiting => Action::Suspend,
            Phase::Captured => match self.captured {
                Some(sample) => Action::LogSample(sample),
                // not reached: a session in this phase holds its sample
                None => Action::Suspend,
            },
            Phase::Accumulated => Action::Delay,
            Phase::Terminated => Action::Halt(self.tracker.report()),
        }
    }

    /// Takes one event. The event that the current phase waits for moves
    /// the session on and returns the action of the phase it enters; any
    /// other event, and every event on a terminated session, changes
    /// nothing and returns `None`.
    pub fn step(&mut self, event: Event) -> (action: Option<Action>)
        ensures
            final(self)@ == old(self)@.step(event).0,
            action == old(self)@.step(event).1,
            final(self)@.wf(),
    {
        proof {
            use_type_invariant(&*self);
        }
        let mut phase = self.phase;
        let mut tracker = self.tracker;
        let mut captured = self.captured;
        let accepted = match (self.phase, event) {
            (Phase::Armed, Event::StartFired) => {
                phase = Phase::Waiting;
                true
            },
            (Phase::Waiting, Event::EndObserved { cycles }) => {
                match Sample::capture(self.conversion, cycles, self.clock_mhz) {
                    Ok(sample) => {
                        phase = Phase::Captured;
                        captured = Some(sample);
                        true
                    },
                    // not reached: a session has a clock frequency
                    Err(_) => false,
                }
            },
            (Phase::Captured, Event::SampleLogged) => {
                match self.captured {
                    Some(sample) => {
                        let reached = tracker.record(sample.nanoseconds);
                        phase = if reached {
                            Phase::Terminated
                        } else {
                            Phase::Accumulated
                        };
                        captured = None;
                        true
                    },
                    // not reached: a session in this phase holds its sample
                    None => false,
                }
            },
            (Phase::Accumulated, Event::DelayElapsed) => {
                phase = Phase::Armed;
                true
            },
            _ => false,
        };
        if accepted {
            *self = ProfilingSession {
                phase,
                tracker,
                clock_mhz: self.clock_mhz,
                conversion: self.conversion,
                captured,
            };
            Some(self.pending_action())
        } else {
            None
        }
    }

    /// Runs one whole trial on an armed session, for a caller that has the
    /// cycle count of the end event at hand: folds the converted sample,
    /// and either re-arms the session or terminates it. Returns the sample
    /// and, if this trial brought the counter to the threshold, the final
    /// report. A session that is not armed is left alone and returns `None`.
    pub fn run_trial(&mut self, cycles: u32) -> (outcome: Option<TrialOutcome>)
        ensures
            final(self)@ == old(self)@.after_trial(cycles),
            final(self)@.wf(),
            old(self)@.phase != Phase::Armed ==> outcome == None::<TrialOutcome>,
            old(self)@.phase == Phase::Armed ==> outcome == Some(
                TrialOutcome {
                    sample: old(self)@.sample_of(cycles),
                    halt: if old(self)@.tracker.completes_on_next() {
                        Some(report_of(final(self)@.tracker))
                    } else {
                        None
                    },
                },
            ),
            old(self)@.phase == Phase::Armed ==> final(self)@.tracker == old(
                self,
            )@.tracker.after_sample(old(self)@.sample_of(cycles).nanoseconds as int),
            old(self)@.phase == Phase::Armed ==> final(self)@.phase == if old(
                self,
            )@.tracker.completes_on_next() {
                Phase::Terminated
            } else {
                Phase::Armed
            },
    {
        proof {
            use_type_invariant(&*self);
        }
        match self.phase {
            Phase::Armed => {},
            _ => {
                return None;
            },
        }
        let _suspend = self.step(Event::StartFired);
        let logged = self.step(Event::EndObserved { cycles });
        let sample = match logged {
            Some(Action::LogSample(sample)) => sample,
            // not reached: a waiting session captures on its end event
            _ => {
                return None;
            },
        };
        let folded = self.step(Event::SampleLogged);
        match folded {
            Some(Action::Halt(report)) => Some(TrialOutcome { sample, halt: Some(report) }),
            _ => {
                let _rearm = self.step(Event::DelayElapsed);
                Some(TrialOutcome { sample, halt: None })
            },
        }
    }
}

/// Every step keeps a session valid: in particular the counter never
/// overshoots the threshold and goes up by exactly one per folded sample.
pub proof fn lemma_step_keeps_wf(state: SessionState, event: Event)
    requires
        state.wf(),
    ensures
        state.step(event).0.wf(),
        state.step(event).0.tracker.threshold == state.tracker.threshold,
        state.step(event).0.tracker.worst_case_ns >= state.tracker.worst_case_ns,
        state.step(event).0.tracker.activation_count == if state.phase == Phase::Captured
            && event == Event::SampleLogged {
            state.tracker.activation_count + 1
        } else {
            state.tracker.activation_count
        },
{
}

/// The session halts exactly on the sample that brings the counter to the
/// threshold: a step yields `Halt` if and only if it folds a sample while
/// the counter is one short of the threshold. The session is then
/// terminated, and the report carries the threshold as its count.
pub proof fn lemma_halt_fires_at_threshold(state: SessionState, event: Event)
    requires
        state.wf(),
    ensures
        (state.step(event).1 matches Some(Action::Halt(_))) <==> (state.phase == Phase::Captured
            && event == Event::SampleLogged && state.tracker.completes_on_next()),
        (state.step(event).1 matches Some(Action::Halt(_))) <==> (state.phase != Phase::Terminated
            && state.step(event).0.phase == Phase::Terminated),
        state.step(event).1 matches Some(Action::Halt(report)) ==> report.activation_count
            == state.tracker.threshold && report.worst_case_ns == state.step(
            event,
        ).0.tracker.worst_case_ns,
        state.step(event).0.phase == Phase::Terminated ==> state.step(
            event,
        ).0.tracker.activation_count == state.tracker.threshold,
{
}

/// The terminated state is final: no event changes it or yields an action,
/// so a session halts at most once.
pub proof fn lemma_terminated_is_final(state: SessionState, event: Event)
    requires
        state.phase == Phase::Terminated,
    ensures
        state.step(event) == (state, None::<Action>),
{
}

/// A run of whole trials folds the converted samples into the tracker, one
/// by one and in order, until the threshold is reached: the session ends
/// armed for the next trial, or terminated if and only if the counter has
/// reached the threshold.
pub proof fn lemma_trials_fold_converted_samples(state: SessionState, cycles: Seq<u32>)
    requires
        state.wf(),
        state.phase == Phase::Armed || state.phase == Phase::Terminated,
    ensures
        state.after_trials(cycles).wf(),
        state.after_trials(cycles).tracker == state.tracker.after_samples(state.converted(cycles)),
        state.after_trials(cycles).clock_mhz == state.clock_mhz,
        state.after_trials(cycles).conversion == state.conversion,
        state.after_trials(cycles).phase == if state.after_trials(cycles).tracker.is_complete() {
            Phase::Terminated
        } else {
            Phase::Armed
        },
    decreases cycles.len(),
{
    if cycles.len() > 0 {
        let earlier = cycles.drop_last();
        lemma_trials_fold_converted_samples(state, earlier);
        let mid = state.after_trials(earlier);
        assert(state.converted(cycles).drop_last() =~= state.converted(earlier));
        assert(state.converted(cycles).last() == mid.sample_of(cycles.last()).nanoseconds);
    }
}

} // verus!
