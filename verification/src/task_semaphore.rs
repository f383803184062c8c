//! The collapsing presence flag: a guarded, one-time-initialized primitive
//! that carries at most one pending notification from its single signaler to
//! its single waiter.

use crate::error::ProfilingError;
use crate::slot::{flag_new, flag_pending, flag_raise, flag_take, PresenceFlag};
use crate::watchdog::WatchdogSink;
use vstd::prelude::*;

verus! {

/// What a semaphore instance is, as far as its handles can tell.
pub struct SemaphoreState {
    /// The guarded constructor has run.
    pub initialized: bool,
    /// A notification is waiting to be consumed.
    pub pending: bool,
}

impl SemaphoreState {
    /// The state after one call of the guarded constructor: the first call
    /// builds the storage, with nothing pending; a later one changes
    /// nothing.
    pub open spec fn after_init(self) -> SemaphoreState {
        if self.initialized {
            self
        } else {
            SemaphoreState { initialized: true, pending: false }
        }
    }

    /// The state after one `signal()`.
    pub open spec fn after_signal(self) -> SemaphoreState {
        SemaphoreState { initialized: self.initialized, pending: true }
    }

    /// The state after `count` calls of `signal()` with no `wait()` between
    /// them.
    pub open spec fn after_signals(self, count: nat) -> SemaphoreState
        decreases count,
    {
        if count == 0 {
            self
        } else {
            self.after_signals((count - 1) as nat).after_signal()
        }
    }

    /// What one `wait()` hands out: the notification, if one is pending.
    pub open spec fn wait_result(self) -> Option<()> {
        if self.pending {
            Some(())
        } else {
            None
        }
    }

    /// The state after one `wait()`.
    pub open spec fn after_wait(self) -> SemaphoreState {
        SemaphoreState { initialized: self.initialized, pending: false }
    }
}

/// The primitive instance: the construction guard and the presence flag.
/// After `init` it is mutated only through the two handles.
pub struct TaskSemaphore {
    guard: bool,
    flag: PresenceFlag,
}

impl View for TaskSemaphore {
    type V = SemaphoreState;

    closed spec fn view(&self) -> SemaphoreState {
        SemaphoreState { initialized: self.guard, pending: flag_pending(self.flag) }
    }
}

/// The consuming capability of one semaphore instance.
pub struct TaskSemaphoreWaiter {
    sealed: (),
}

/// The producing capability of one semaphore instance. It owns the watchdog
/// sink that each activation is reported to.
pub struct TaskSemaphoreSignaler {
    activation_watchdog: WatchdogSink,
}

impl TaskSemaphore {
    /// An instance whose guarded constructor has not run: no handle to it
    /// exists yet.
    pub fn new() -> (sem: Self)
        ensures
            sem@ == (SemaphoreState { initialized: false, pending: false }),
    {
        TaskSemaphore { guard: false, flag: flag_new() }
    }

    /// The guarded constructor. The first call on an instance builds the
    /// backing storage and hands out the one handle pair, the signaler
    /// holding `activation_watchdog`. Every later call fails with
    /// `DoubleInitialization` and leaves the instance as it was.
    pub fn init(&mut self, activation_watchdog: WatchdogSink) -> (handles: Result<
        (TaskSemaphoreWaiter, TaskSemaphoreSignaler),
        ProfilingError,
    >)
        ensures
            final(self)@ == old(self)@.after_init(),
            old(self)@.initialized ==> handles == Err::<
                (TaskSemaphoreWaiter, TaskSemaphoreSignaler),
                ProfilingError,
            >(ProfilingError::DoubleInitialization),
            !old(self)@.initialized ==> (handles matches Ok(pair) && pair.1.watchdog()
                == activation_watchdog@),
    {
        if self.guard {
            return Err(ProfilingError::DoubleInitialization);
        }
        self.guard = true;
        self.flag = flag_new();
        Ok((TaskSemaphoreWaiter { sealed: () }, TaskSemaphoreSignaler { activation_watchdog }))
    }

    /// Whether the guarded constructor has run on this instance.
    pub fn is_initialized(&self) -> (initialized: bool)
        ensures
            initialized == self@.initialized,
    {
        self.guard
    }
}

impl TaskSemaphoreSignaler {
    /// What the watchdog sink of this signaler holds.
    pub closed spec fn watchdog(&self) -> Option<u64> {
        self.activation_watchdog@
    }

    /// Raises the flag, then stamps the watchdog sink: the two writes that
    /// one activation consists of, in their order.
    pub(crate) fn raise_and_stamp(&mut self, sem: &mut TaskSemaphore, now: u64)
        ensures
            final(sem)@ == old(sem)@.after_signal(),
            final(self).watchdog() == Some(now),
    {
        flag_raise(&mut sem.flag);
        self.activation_watchdog.write(now);
    }

    /// Signals the waiter: under a critical section, raises the flag of `sem`,
    /// the instance that handed this signaler out, and writes `now`, the
    /// current time in clock ticks, to the watchdog sink. A notification
    /// that was already pending is not counted twice.
    pub fn signal(&mut self, sem: &mut TaskSemaphore, now: u64)
        ensures
            final(sem)@ == old(sem)@.after_signal(),
            final(self).watchdog() == Some(now),
    {
        signal_in_critical_section(self, sem, now);
    }

    /// The monitor's read of the watchdog sink: hands out the timestamp of
    /// the last activation not yet read, and empties the sink.
    pub fn take_activation(&mut self) -> (stamp: Option<u64>)
        ensures
            stamp == old(self).watchdog(),
            final(self).watchdog() == None::<u64>,
    {
        self.activation_watchdog.take()
    }
}

/// `critical_section::with`: runs the closure once, with preemption disabled
/// for its duration, and returns what it returned. The closure is one call of
/// `raise_and_stamp`, whose contract is therefore the contract here.
#[verifier::external_body]
fn signal_in_critical_section(
    signaler: &mut TaskSemaphoreSignaler,
    sem: &mut TaskSemaphore,
    now: u64,
)
    ensures
        final(sem)@ == old(sem)@.after_signal(),
        final(signaler).watchdog() == Some(now),
{
    critical_section::with(|_cs| signaler.raise_and_stamp(sem, now))
}

impl TaskSemaphoreWaiter {
    /// One poll of the suspension point: consumes the pending notification
    /// of `sem`, the instance that handed this waiter out, and returns it,
    /// or returns `None` where nothing is pending and the caller has to
    /// suspend until the next `signal()`.
    pub fn wait(&mut self, sem: &mut TaskSemaphore) -> (notification: Option<()>)
        ensures
            notification == old(sem)@.wait_result(),
            final(sem)@ == old(sem)@.after_wait(),
    {
        flag_take(&mut sem.flag)
    }
}

/// However many times the signaler fires before the waiter runs, exactly one
/// notification is pending afterwards: one `wait()` resolves with it and
/// clears it, and the next `wait()` finds nothing.
pub proof fn lemma_signals_collapse(before: SemaphoreState, count: nat)
    requires
        count >= 1,
    ensures
        before.after_signals(count) == before.after_signal(),
        before.after_signals(count).pending,
        before.after_signals(count).wait_result() == Some(()),
        !before.after_signals(count).after_wait().pending,
        before.after_signals(count).after_wait().wait_result() == None::<()>,
    decreases count,
{
    if count > 1 {
        lemma_signals_collapse(before, (count - 1) as nat);
    } else {
        assert(before.after_signals(0) == before);
    }
}

/// One call on a semaphore instance or through one of its handles.
pub enum SemaphoreCall {
    /// `TaskSemaphore::init`.
    Init,
    /// `TaskSemaphoreSignaler::signal`.
    Signal,
    /// `TaskSemaphoreWaiter::wait`.
    Wait,
}

impl SemaphoreState {
    /// The state after one call.
    pub open spec fn after_call(self, call: SemaphoreCall) -> SemaphoreState {
        match call {
            SemaphoreCall::Init => self.after_init(),
            SemaphoreCall::Signal => self.after_signal(),
            SemaphoreCall::Wait => self.after_wait(),
        }
    }

    /// The state after a sequence of calls.
    pub open spec fn after_calls(self, calls: Seq<SemaphoreCall>) -> SemaphoreState
        decreases calls.len(),
    {
        if calls.len() == 0 {
            self
        } else {
            self.after_calls(calls.drop_last()).after_call(calls.last())
        }
    }

    /// How many handle pairs a sequence of calls hands out: one for each
    /// `init` that finds the instance uninitialized.
    pub open spec fn pairs_handed_out(self, calls: Seq<SemaphoreCall>) -> nat
        decreases calls.len(),
    {
        if calls.len() == 0 {
            0
        } else {
            let earlier = self.pairs_handed_out(calls.drop_last());
            if calls.last() is Init && !self.after_calls(calls.drop_last()).initialized {
                earlier + 1
            } else {
                earlier
            }
        }
    }
}

/// Whatever is called on an instance and in whatever order, at most one
/// handle pair is ever handed out, and none once the instance is
/// initialized: the guard, once set, stays set.
pub proof fn lemma_one_pair_per_instance(before: SemaphoreState, calls: Seq<SemaphoreCall>)
    ensures
        before.pairs_handed_out(calls) <= 1,
        before.initialized ==> before.pairs_handed_out(calls) == 0,
        before.initialized ==> before.after_calls(calls).initialized,
        before.pairs_handed_out(calls) == 1 ==> before.after_calls(calls).initialized,
    decreases calls.len(),
{
    if calls.len() > 0 {
        lemma_one_pair_per_instance(before, calls.drop_last());
    }
}

} // verus!
