use wcet_profiling::error::ProfilingError;
use wcet_profiling::protocol::{Action, Event, Phase, ProfilingSession, TrialOutcome};
use wcet_profiling::time::{get_dwt_ref, get_hclk_mhz, set_hclk_mhz, ClockSource};
use wcet_profiling::tracker::{Conversion, FinalReport, Sample, WorstCaseTracker};

#[test]
fn capture_converts_cycles_to_whole_nanoseconds() {
    let cases: [(u32, i64); 6] = [(100, 595), (250, 1488), (90, 535), (400, 2380), (168, 1000), (0, 0)];
    for (cycles, ns) in cases {
        assert_eq!(
            Sample::capture(Conversion::Elapsed, cycles, 168),
            Ok(Sample { cycle_count: cycles, nanoseconds: ns })
        );
    }
}

#[test]
fn capture_at_the_limits() {
    assert_eq!(
        Sample::capture(Conversion::Elapsed, u32::MAX, 1),
        Ok(Sample { cycle_count: u32::MAX, nanoseconds: 4_294_967_295_000 })
    );
    assert_eq!(
        Sample::capture(Conversion::Elapsed, u32::MAX, u32::MAX),
        Ok(Sample { cycle_count: u32::MAX, nanoseconds: 1000 })
    );
    assert_eq!(
        Sample::capture(Conversion::Overhead { nominal_interval_ns: u32::MAX }, 0, 1),
        Ok(Sample { cycle_count: 0, nanoseconds: -4_294_967_295 })
    );
}

#[test]
fn capture_without_a_clock_is_unavailable() {
    assert_eq!(
        Sample::capture(Conversion::Elapsed, 100, 0),
        Err(ProfilingError::UnavailableResource)
    );
}

#[test]
fn overhead_is_elapsed_less_nominal() {
    let conversion = Conversion::Overhead { nominal_interval_ns: 10 };
    assert_eq!(
        Sample::capture(conversion, 168, 168),
        Ok(Sample { cycle_count: 168, nanoseconds: 990 })
    );
    assert_eq!(
        Sample::capture(conversion, 2, 168),
        Ok(Sample { cycle_count: 2, nanoseconds: 1 })
    );
}

#[test]
fn overhead_is_nonnegative_when_the_wakeup_is_not_early() {
    let nominal: u32 = 1000;
    let conversion = Conversion::Overhead { nominal_interval_ns: nominal };
    for mhz in [1u32, 16, 84, 168] {
        for cycles in 0..2000u32 {
            let sample = Sample::capture(conversion, cycles, mhz).unwrap();
            let on_time = (cycles as u64) * 1000 >= (nominal as u64) * (mhz as u64);
            assert_eq!(sample.nanoseconds >= 0, on_time);
        }
    }
}

#[test]
fn tracker_folds_the_maximum() {
    let mut tracker = WorstCaseTracker::new(5);
    assert_eq!(tracker.worst_case_ns(), 0);
    assert_eq!(tracker.activation_count(), 0);
    assert_eq!(tracker.threshold(), 5);
    assert!(!tracker.is_complete());
    let samples: [i64; 5] = [30, 10, 70, 70, 20];
    let running: [i64; 5] = [30, 30, 70, 70, 70];
    for i in 0..5 {
        let reached = tracker.record(samples[i]);
        assert_eq!(reached, i == 4);
        assert_eq!(tracker.worst_case_ns(), running[i]);
        assert_eq!(tracker.activation_count(), (i + 1) as u32);
    }
    assert!(tracker.is_complete());
    assert_eq!(tracker.report(), FinalReport { worst_case_ns: 70, activation_count: 5 });
}

#[test]
fn tracker_never_decreases() {
    let mut tracker = WorstCaseTracker::new(1000);
    let mut previous = tracker.worst_case_ns();
    let mut x: i64 = 12345;
    for _ in 0..1000 {
        x = (x * 1103515245 + 12345) % 2147483648;
        tracker.record(x % 5000 - 1000);
        assert!(tracker.worst_case_ns() >= previous);
        previous = tracker.worst_case_ns();
    }
}

#[test]
fn tracker_ignores_negative_samples_in_the_worst_case() {
    let mut tracker = WorstCaseTracker::new(3);
    tracker.record(-5);
    assert_eq!(tracker.worst_case_ns(), 0);
    assert_eq!(tracker.activation_count(), 1);
}

#[test]
fn tracker_takes_nothing_once_complete() {
    let mut tracker = WorstCaseTracker::new(2);
    assert!(!tracker.record(5));
    assert!(tracker.record(6));
    assert!(!tracker.record(100));
    assert_eq!(tracker.worst_case_ns(), 6);
    assert_eq!(tracker.activation_count(), 2);
}

#[test]
fn tracker_with_threshold_zero_is_complete() {
    let mut tracker = WorstCaseTracker::new(0);
    assert!(tracker.is_complete());
    assert!(!tracker.record(9));
    assert_eq!(tracker.activation_count(), 0);
    assert_eq!(tracker.worst_case_ns(), 0);
}

#[test]
fn session_without_a_clock_is_unavailable() {
    let session = ProfilingSession::new(10, 0, Conversion::Elapsed);
    assert_eq!(session.err(), Some(ProfilingError::UnavailableResource));
}

#[test]
fn session_starts_armed() {
    let session = ProfilingSession::new(10, 168, Conversion::Elapsed).ok().unwrap();
    assert_eq!(session.phase(), Phase::Armed);
    assert_eq!(session.pending_action(), Action::ResetAndTrigger);
    assert_eq!(session.worst_case_ns(), 0);
    assert_eq!(session.activation_count(), 0);
    assert_eq!(session.threshold(), 10);
    assert!(!session.is_terminated());
}

#[test]
fn session_with_threshold_zero_starts_terminated() {
    let mut session = ProfilingSession::new(0, 168, Conversion::Elapsed).ok().unwrap();
    assert_eq!(session.phase(), Phase::Terminated);
    assert!(session.is_terminated());
    assert_eq!(session.step(Event::StartFired), None);
    assert_eq!(session.run_trial(100), None);
    assert_eq!(
        session.pending_action(),
        Action::Halt(FinalReport { worst_case_ns: 0, activation_count: 0 })
    );
}

#[test]
fn session_walks_through_the_phases() {
    let mut session = ProfilingSession::new(2, 168, Conversion::Elapsed).ok().unwrap();
    assert_eq!(session.step(Event::StartFired), Some(Action::Suspend));
    assert_eq!(session.phase(), Phase::Waiting);
    let sample = Sample { cycle_count: 100, nanoseconds: 595 };
    assert_eq!(session.step(Event::EndObserved { cycles: 100 }), Some(Action::LogSample(sample)));
    assert_eq!(session.phase(), Phase::Captured);
    assert_eq!(session.activation_count(), 0);
    assert_eq!(session.step(Event::SampleLogged), Some(Action::Delay));
    assert_eq!(session.phase(), Phase::Accumulated);
    assert_eq!(session.activation_count(), 1);
    assert_eq!(session.worst_case_ns(), 595);
    assert_eq!(session.step(Event::DelayElapsed), Some(Action::ResetAndTrigger));
    assert_eq!(session.phase(), Phase::Armed);
    assert_eq!(session.step(Event::StartFired), Some(Action::Suspend));
    assert_eq!(
        session.step(Event::EndObserved { cycles: 90 }),
        Some(Action::LogSample(Sample { cycle_count: 90, nanoseconds: 535 }))
    );
    let report = FinalReport { worst_case_ns: 595, activation_count: 2 };
    assert_eq!(session.step(Event::SampleLogged), Some(Action::Halt(report)));
    assert_eq!(session.phase(), Phase::Terminated);
    assert!(session.is_terminated());
    assert_eq!(session.pending_action(), Action::Halt(report));
}

#[test]
fn session_ignores_events_out_of_turn() {
    let events = [
        Event::StartFired,
        Event::EndObserved { cycles: 5 },
        Event::SampleLogged,
        Event::DelayElapsed,
    ];
    let mut session = ProfilingSession::new(3, 100, Conversion::Elapsed).ok().unwrap();
    for expected in 0..4usize {
        for (i, event) in events.iter().enumerate() {
            if i != expected {
                let before = session.phase();
                assert_eq!(session.step(*event), None);
                assert_eq!(session.phase(), before);
            }
        }
        assert!(session.step(events[expected]).is_some());
    }
    assert_eq!(session.activation_count(), 1);
}

#[test]
fn session_terminated_is_final() {
    let mut session = ProfilingSession::new(1, 100, Conversion::Elapsed).ok().unwrap();
    let outcome = session.run_trial(700).unwrap();
    assert_eq!(outcome.halt, Some(FinalReport { worst_case_ns: 7000, activation_count: 1 }));
    for event in [
        Event::StartFired,
        Event::EndObserved { cycles: 1_000_000 },
        Event::SampleLogged,
        Event::DelayElapsed,
    ] {
        assert_eq!(session.step(event), None);
        assert_eq!(session.phase(), Phase::Terminated);
    }
    assert_eq!(session.run_trial(1_000_000), None);
    assert_eq!(session.worst_case_ns(), 7000);
    assert_eq!(session.activation_count(), 1);
}

#[test]
fn run_trial_needs_an_armed_session() {
    let mut session = ProfilingSession::new(3, 100, Conversion::Elapsed).ok().unwrap();
    assert_eq!(session.step(Event::StartFired), Some(Action::Suspend));
    assert_eq!(session.run_trial(10), None);
    assert_eq!(session.phase(), Phase::Waiting);
    assert_eq!(session.activation_count(), 0);
}

#[test]
fn scenario_ten_samples_at_168_mhz() {
    let cycles: [u32; 10] = [100, 250, 90, 400, 168, 168, 168, 168, 168, 168];
    let nanoseconds: [i64; 10] = [595, 1488, 535, 2380, 1000, 1000, 1000, 1000, 1000, 1000];
    let mut session = ProfilingSession::new(10, 168, Conversion::Elapsed).ok().unwrap();
    let mut halts = 0;
    for i in 0..10 {
        assert!(!session.is_terminated());
        let outcome = session.run_trial(cycles[i]).unwrap();
        assert_eq!(outcome.sample, Sample { cycle_count: cycles[i], nanoseconds: nanoseconds[i] });
        assert_eq!(session.activation_count(), (i + 1) as u32);
        let so_far = *nanoseconds[..=i].iter().max().unwrap();
        assert_eq!(session.worst_case_ns(), so_far);
        if i < 9 {
            assert_eq!(outcome.halt, None);
            assert_eq!(session.phase(), Phase::Armed);
        } else {
            assert_eq!(outcome.halt, Some(FinalReport { worst_case_ns: 2380, activation_count: 10 }));
            halts += 1;
        }
    }
    assert_eq!(halts, 1);
    assert!(session.is_terminated());
    assert_eq!(session.worst_case_ns(), 2380);
    assert_eq!(session.activation_count(), 10);
    assert_eq!(session.run_trial(5000), None);
    assert_eq!(session.worst_case_ns(), 2380);
}

#[test]
fn counter_equals_threshold_at_termination() {
    for threshold in 1..40u32 {
        let mut session = ProfilingSession::new(threshold, 84, Conversion::Elapsed).ok().unwrap();
        let mut trials = 0u32;
        let mut halts = 0u32;
        while let Some(TrialOutcome { halt, .. }) = session.run_trial(trials * 3) {
            trials += 1;
            assert!(session.activation_count() <= threshold);
            if let Some(report) = halt {
                halts += 1;
                assert_eq!(report.activation_count, threshold);
                assert_eq!(trials, threshold);
            }
        }
        assert_eq!(halts, 1);
        assert_eq!(trials, threshold);
        assert_eq!(session.activation_count(), threshold);
        assert!(session.is_terminated());
    }
}

#[test]
fn timed_wakeup_session_tracks_overhead() {
    let conversion = Conversion::Overhead { nominal_interval_ns: 10 };
    let mut session = ProfilingSession::new(3, 168, conversion).ok().unwrap();
    assert_eq!(session.run_trial(400).unwrap().sample.nanoseconds, 2370);
    assert_eq!(session.run_trial(1).unwrap().sample.nanoseconds, -5);
    assert_eq!(session.worst_case_ns(), 2370);
    let last = session.run_trial(840).unwrap();
    assert_eq!(last.sample.nanoseconds, 4990);
    assert_eq!(last.halt, Some(FinalReport { worst_case_ns: 4990, activation_count: 3 }));
}

#[test]
fn clock_source_starts_unconfigured() {
    let source = ClockSource::new();
    assert_eq!(get_hclk_mhz(&source), 0);
    assert_eq!(get_dwt_ref(&source).err(), Some(ProfilingError::UnavailableResource));
}

#[test]
fn clock_source_keeps_the_frequency() {
    let mut source = ClockSource::new();
    set_hclk_mhz(&mut source, 168);
    assert_eq!(get_hclk_mhz(&source), 168);
    set_hclk_mhz(&mut source, 84);
    assert_eq!(get_hclk_mhz(&source), 84);
    assert!(get_dwt_ref(&source).is_err());
    let session = ProfilingSession::new(10, get_hclk_mhz(&source), Conversion::Elapsed);
    assert!(session.is_ok());
}
