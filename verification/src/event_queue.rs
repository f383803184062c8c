//! The bounded event queue: a guarded, one-time-initialized primitive that
//! carries payloads in FIFO order from its single signaler to its single
//! waiter, with a fixed capacity and a configured overflow policy.

use crate::error::ProfilingError;
use crate::watchdog::WatchdogSink;
use std::collections::VecDeque;
use vstd::prelude::*;

verus! {

/// What happens to a payload that arrives while the queue is full.
#[derive(Clone, Copy, Debug, PartialEq, Eq, Structural)]
pub enum OverflowPolicy {
    /// The arriving payload is discarded; what is queued stays.
    DropNewest,
    /// The oldest queued payload is discarded to make room.
    DropOldest,
}

impl Default for OverflowPolicy {
    fn default() -> (policy: Self)
        ensures
            policy == OverflowPolicy::DropNewest,
    {
        OverflowPolicy::DropNewest
    }
}

/// One more dropped payload, the count staying at `u64::MAX` once there.
pub open spec fn bump(dropped: nat) -> nat {
    if dropped < u64::MAX {
        dropped + 1
    } else {
        dropped
    }
}

/// What a queue instance is, as far as its handles can tell.
pub struct QueueState<T> {
    /// The guarded constructor has run.
    pub initialized: bool,
    /// The most payloads that can wait at once.
    pub capacity: nat,
    /// What happens on overflow.
    pub policy: OverflowPolicy,
    /// The unconsumed payloads, oldest first.
    pub items: Seq<T>,
    /// How many payloads were discarded on overflow.
    pub dropped: nat,
}

impl<T> QueueState<T> {
    /// The queue never holds more than its capacity.
    pub open spec fn wf(self) -> bool {
        self.items.len() <= self.capacity
    }

    /// The state after one call of the guarded constructor: the first call
    /// builds the buffer, empty and with nothing dropped; a later one
    /// changes nothing.
    pub open spec fn after_init(self) -> QueueState<T> {
        if self.initialized {
            self
        } else {
            QueueState { initialized: true, items: Seq::empty(), dropped: 0, ..self }
        }
    }

    /// The state after one `signal(payload)`.
    pub open spec fn after_signal(self, payload: T) -> QueueState<T> {
        if self.items.len() < self.capacity {
            QueueState { items: self.items.push(payload), ..self }
        } else if self.policy == OverflowPolicy::DropOldest && self.items.len() > 0 {
            QueueState {
                items: self.items.skip(1).push(payload),
                dropped: bump(self.dropped),
                ..self
            }
        } else {
            QueueState { dropped: bump(self.dropped), ..self }
        }
    }

    /// The state after `signal` was called with each of `payloads` in order
    /// and no `wait()` between them.
    pub open spec fn after_signals(self, payloads: Seq<T>) -> QueueState<T>
        decreases payloads.len(),
    {
        if payloads.len() == 0 {
            self
        } else {
            self.after_signals(payloads.drop_last()).after_signal(payloads.last())
        }
    }

    /// What one `wait()` hands out: the oldest unconsumed payload, if any.
    pub open spec fn wait_result(self) -> Option<T> {
        if self.items.len() > 0 {
            Some(self.items[0])
        } else {
            None
        }
    }

    /// The state after one `wait()`.
    pub open spec fn after_wait(self) -> QueueState<T> {
        if self.items.len() > 0 {
            QueueState { items: self.items.skip(1), ..self }
        } else {
            self
        }
    }

    /// The state after `count` calls of `wait()` with no `signal` between
    /// them.
    pub open spec fn after_waits(self, count: nat) -> QueueState<T>
        decreases count,
    {
        if count == 0 {
            self
        } else {
            self.after_waits((count - 1) as nat).after_wait()
        }
    }
}

/// The primitive instance: the construction guard, the configuration and the
/// buffer. After `init` it is mutated only through the two handles.
pub struct EventQueue<T> {
    guard: bool,
    capacity: usize,
    policy: OverflowPolicy,
    buffer: VecDeque<T>,
    dropped: u64,
}

impl<T> View for EventQueue<T> {
    type V = QueueState<T>;

    closed spec fn view(&self) -> QueueState<T> {
        QueueState {
            initialized: self.guard,
            capacity: self.capacity as nat,
            policy: self.policy,
            items: self.buffer@,
            dropped: self.dropped as nat,
        }
    }
}

/// The consuming capability of one queue instance.
pub struct EventQueueWaiter {
    sealed: (),
}

/// The producing capability of one queue instance. It owns the watchdog sink
/// that each activation is reported to.
pub struct EventQueueSignaler {
    activation_watchdog: WatchdogSink,
}

impl<T> EventQueue<T> {
    /// An instance of the given capacity and overflow policy whose guarded
    /// constructor has not run: no handle to it exists yet.
    pub fn new(capacity: usize, policy: OverflowPolicy) -> (queue: Self)
        ensures
            queue@ == (QueueState::<T> {
                initialized: false,
                capacity: capacity as nat,
                policy,
                items: Seq::<T>::empty(),
                dropped: 0,
            }),
            queue@.wf(),
    {
        EventQueue { guard: false, capacity, policy, buffer: VecDeque::new(), dropped: 0 }
    }

    /// The guarded constructor. The first call on an instance builds the
    /// empty buffer and hands out the one handle pair, the signaler holding
    /// `activation_watchdog`. Every later call fails with
    /// `DoubleInitialization` and leaves the instance as it was.
    pub fn init(&mut self, activation_watchdog: WatchdogSink) -> (handles: Result<
        (EventQueueWaiter, EventQueueSignaler),
        ProfilingError,
    >)
        ensures
            final(self)@ == old(self)@.after_init(),
            old(self)@.wf() ==> final(self)@.wf(),
            old(self)@.initialized ==> handles == Err::<
                (EventQueueWaiter, EventQueueSignaler),
                ProfilingError,
            >(ProfilingError::DoubleInitialization),
            !old(self)@.initialized ==> (handles matches Ok(pair) && pair.1.watchdog()
                == activation_watchdog@),
    {
        if self.guard {
            return Err(ProfilingError::DoubleInitialization);
        }
        self.guard = true;
        self.buffer = VecDeque::new();
        self.dropped = 0;
        Ok((EventQueueWaiter { sealed: () }, EventQueueSignaler { activation_watchdog }))
    }

    /// Whether the guarded constructor has run on this instance.
    pub fn is_initialized(&self) -> (initialized: bool)
        ensures
            initialized == self@.initialized,
    {
        self.guard
    }

    /// The configured capacity.
    pub fn capacity(&self) -> (capacity: usize)
        ensures
            capacity == self@.capacity,
    {
        self.capacity
    }

    /// The configured overflow policy.
    pub fn policy(&self) -> (policy: OverflowPolicy)
        ensures
            policy == self@.policy,
    {
        self.policy
    }

    /// How many payloads wait to be consumed.
    pub fn len(&self) -> (len: usize)
        ensures
            len == self@.items.len(),
    {
        self.buffer.len()
    }

    /// How many payloads were discarded on overflow since `init`.
    pub fn dropped_count(&self) -> (dropped: u64)
        ensures
            dropped == self@.dropped,
    {
        self.dropped
    }

    /// Appends `payload`, applying the overflow policy where the buffer is
    /// full.
    fn enqueue(&mut self, payload: T)
        ensures
            final(self)@ == old(self)@.after_signal(payload),
    {
        if self.buffer.len() < self.capacity {
            self.buffer.push_back(payload);
        } else {
            if self.dropped < u64::MAX {
                self.dropped = self.dropped + 1;
            }
            match self.policy {
                OverflowPolicy::DropNewest => {},
                OverflowPolicy::DropOldest => {
                    if self.buffer.len() > 0 {
                        let _oldest = self.buffer.pop_front();
                        self.buffer.push_back(payload);
                    }
                },
            }
        }
    }

    /// Removes and returns the oldest payload, if there is one.
    fn dequeue(&mut self) -> (payload: Option<T>)
        ensures
            payload == old(self)@.wait_result(),
            final(self)@ == old(self)@.after_wait(),
    {
        self.buffer.pop_front()
    }
}

impl EventQueueSignaler {
    /// What the watchdog sink of this signaler holds.
    pub closed spec fn watchdog(&self) -> Option<u64> {
        self.activation_watchdog@
    }

    /// Appends the payload, then stamps the watchdog sink: the two writes
    /// that one activation consists of, in their order. The sink is written
    /// whether or not a payload was dropped.
    pub(crate) fn append_and_stamp<T>(&mut self, queue: &mut EventQueue<T>, payload: T, now: u64)
        ensures
            final(queue)@ == old(queue)@.after_signal(payload),
            final(self).watchdog() == Some(now),
    {
        queue.enqueue(payload);
        self.activation_watchdog.write(now);
    }

    /// Signals the waiter: under a critical section, appends `payload` to
    /// `queue`, the instance that handed this signaler out (or drops a
    /// payload, as the overflow policy says, where the queue is full), and
    /// writes `now`, the current time in clock ticks, to the watchdog sink.
    pub fn signal<T>(&mut self, queue: &mut EventQueue<T>, payload: T, now: u64)
        ensures
            final(queue)@ == old(queue)@.after_signal(payload),
            old(queue)@.wf() ==> final(queue)@.wf(),
            final(self).watchdog() == Some(now),
    {
        enqueue_in_critical_section(self, queue, payload, now);
    }

    /// The monitor's read of the watchdog sink: hands out the timestamp of
    /// the last activation not yet read, and empties the sink.
    pub fn take_activation(&mut self) -> (stamp: Option<u64>)
        ensures
            stamp == old(self).watchdog(),
            final(self).watchdog() == None::<u64>,
    {
        self.activation_watchdog.take()
    }
}

/// `critical_section::with`: runs the closure once, with preemption disabled
/// for its duration, and returns what it returned. The closure is one call of
/// `append_and_stamp`, whose contract is therefore the contract here.
#[verifier::external_body]
fn enqueue_in_critical_section<T>(
    signaler: &mut EventQueueSignaler,
    queue: &mut EventQueue<T>,
    payload: T,
    now: u64,
)
    ensures
        final(queue)@ == old(queue)@.after_signal(payload),
        final(signaler).watchdog() == Some(now),
{
    critical_section::with(|_cs| signaler.append_and_stamp(queue, payload, now))
}

impl EventQueueWaiter {
    /// One poll of the suspension point: consumes the oldest payload of
    /// `queue`, the instance that handed this waiter out, and returns it, or
    /// returns `None` where the queue is empty and the caller has to suspend
    /// until the next `signal`.
    pub fn wait<T>(&mut self, queue: &mut EventQueue<T>) -> (payload: Option<T>)
        ensures
            payload == old(queue)@.wait_result(),
            final(queue)@ == old(queue)@.after_wait(),
            old(queue)@.wf() ==> final(queue)@.wf(),
    {
        queue.dequeue()
    }
}

/// How many of `count` payloads a queue of the given capacity keeps when they
/// arrive in one burst on an empty queue.
pub open spec fn kept(count: nat, capacity: nat) -> nat {
    if count <= capacity {
        count
    } else {
        capacity
    }
}

/// A queue within its capacity stays within it, whatever the handles do.
pub proof fn lemma_bound_is_kept<T>(state: QueueState<T>, payload: T)
    requires
        state.wf(),
    ensures
        state.after_signal(payload).wf(),
        state.after_wait().wf(),
{
}

/// A burst of payloads on an empty queue with nothing dropped so far: as
/// many as fit are kept, the rest are counted as dropped. Under `DropNewest`
/// the first ones are kept, under `DropOldest` the last ones, in their order
/// of arrival either way.
pub proof fn lemma_burst_fills_then_drops<T>(fresh: QueueState<T>, payloads: Seq<T>)
    requires
        fresh.items.len() == 0,
        fresh.dropped == 0,
        payloads.len() <= u64::MAX,
    ensures
        fresh.after_signals(payloads).initialized == fresh.initialized,
        fresh.after_signals(payloads).capacity == fresh.capacity,
        fresh.after_signals(payloads).policy == fresh.policy,
        fresh.after_signals(payloads).dropped == payloads.len() - kept(
            payloads.len(),
            fresh.capacity,
        ),
        fresh.policy == OverflowPolicy::DropNewest ==> fresh.after_signals(payloads).items
            == payloads.take(kept(payloads.len(), fresh.capacity) as int),
        fresh.policy == OverflowPolicy::DropOldest ==> fresh.after_signals(payloads).items
            == payloads.skip(payloads.len() - kept(payloads.len(), fresh.capacity)),
    decreases payloads.len(),
{
    if payloads.len() > 0 {
        let earlier = payloads.drop_last();
        let count = payloads.len();
        lemma_burst_fills_then_drops(fresh, earlier);
        let mid = fresh.after_signals(earlier);
        let after = mid.after_signal(payloads.last());
        assert(fresh.after_signals(payloads) == after);
        let kept_before = kept(earlier.len(), fresh.capacity);
        let kept_after = kept(count, fresh.capacity);
        if fresh.policy == OverflowPolicy::DropNewest {
            assert(mid.items == earlier.take(kept_before as int));
            assert(after.items =~= payloads.take(kept_after as int));
        } else {
            assert(mid.items == earlier.skip(earlier.len() - kept_before));
            assert(after.items =~= payloads.skip(count - kept_after));
        }
    } else {
        assert(fresh.items =~= payloads.take(0));
        assert(fresh.items =~= payloads.skip(0));
    }
}

/// Waiting drains the queue from the front: after `count` calls the first
/// `count` payloads are gone and nothing else has changed.
pub proof fn lemma_waits_drain_front<T>(state: QueueState<T>, count: nat)
    ensures
        state.after_waits(count).initialized == state.initialized,
        state.after_waits(count).capacity == state.capacity,
        state.after_waits(count).policy == state.policy,
        state.after_waits(count).dropped == state.dropped,
        count <= state.items.len() ==> state.after_waits(count).items == state.items.skip(
            count as int,
        ),
        count >= state.items.len() ==> state.after_waits(count).items.len() == 0,
    decreases count,
{
    if count > 0 {
        let earlier = (count - 1) as nat;
        lemma_waits_drain_front(state, earlier);
        let mid = state.after_waits(earlier);
        if count <= state.items.len() {
            assert(mid.after_wait().items =~= state.items.skip(count as int));
        }
    } else {
        assert(state.items =~= state.items.skip(0));
    }
}

/// A burst of payloads on an empty `DropNewest` queue is served in order:
/// the call of `wait()` that follows `served` earlier ones returns the
/// payload that arrived at that position, as long as the position is within
/// what the queue kept; from then on `wait()` finds nothing. The number of
/// payloads that did not fit stays readable as the dropped count throughout.
pub proof fn lemma_burst_is_served_in_order<T>(
    fresh: QueueState<T>,
    payloads: Seq<T>,
    served: nat,
)
    requires
        fresh.items.len() == 0,
        fresh.dropped == 0,
        fresh.policy == OverflowPolicy::DropNewest,
        payloads.len() <= u64::MAX,
    ensures
        served < kept(payloads.len(), fresh.capacity) ==> fresh.after_signals(
            payloads,
        ).after_waits(served).wait_result() == Some(payloads[served as int]),
        served >= kept(payloads.len(), fresh.capacity) ==> fresh.after_signals(
            payloads,
        ).after_waits(served).wait_result() == None::<T>,
        fresh.after_signals(payloads).after_waits(served).dropped == payloads.len() - kept(
            payloads.len(),
            fresh.capacity,
        ),
{
    lemma_burst_fills_then_drops(fresh, payloads);
    lemma_waits_drain_front(fresh.after_signals(payloads), served);
}

/// The same burst on a `DropOldest` queue: what is served, in order, is the
/// tail of the burst that fitted.
pub proof fn lemma_burst_keeps_latest<T>(fresh: QueueState<T>, payloads: Seq<T>, served: nat)
    requires
        fresh.items.len() == 0,
        fresh.dropped == 0,
        fresh.policy == OverflowPolicy::DropOldest,
        payloads.len() <= u64::MAX,
    ensures
        served < kept(payloads.len(), fresh.capacity) ==> fresh.after_signals(
            payloads,
        ).after_waits(served).wait_result() == Some(
            payloads[payloads.len() - kept(payloads.len(), fresh.capacity) + served],
        ),
        served >= kept(payloads.len(), fresh.capacity) ==> fresh.after_signals(
            payloads,
        ).after_waits(served).wait_result() == None::<T>,
        fresh.after_signals(payloads).after_waits(served).dropped == payloads.len() - kept(
            payloads.len(),
            fresh.capacity,
        ),
{
    lemma_burst_fills_then_drops(fresh, payloads);
    lemma_waits_drain_front(fresh.after_signals(payloads), served);
}

/// One call on a queue instance or through one of its handles.
pub enum QueueCall<T> {
    /// `EventQueue::init`.
    Init,
    /// `EventQueueSignaler::signal` with a payload.
    Signal(T),
    /// `EventQueueWaiter::wait`.
    Wait,
}

impl<T> QueueState<T> {
    /// The state after one call.
    pub open spec fn after_call(self, call: QueueCall<T>) -> QueueState<T> {
        match call {
            QueueCall::Init => self.after_init(),
            QueueCall::Signal(payload) => self.after_signal(payload),
            QueueCall::Wait => self.after_wait(),
        }
    }

    /// The state after a sequence of calls.
    pub open spec fn after_calls(self, calls: Seq<QueueCall<T>>) -> QueueState<T>
        decreases calls.len(),
    {
        if calls.len() == 0 {
            self
        } else {
            self.after_calls(calls.drop_last()).after_call(calls.last())
        }
    }

    /// How many handle pairs a sequence of calls hands out: one for each
    /// `init` that finds the instance uninitialized.
    pub open spec fn pairs_handed_out(self, calls: Seq<QueueCall<T>>) -> nat
        decreases calls.len(),
    {
        if calls.len() == 0 {
            0
        } else {
            let earlier = self.pairs_handed_out(calls.drop_last());
            if calls.last() is Init && !self.after_calls(calls.drop_last()).initialized {
                earlier + 1
            } else {
                earlier
            }
        }
    }
}

/// Whatever is called on an instance and in whatever order, at most one
/// handle pair is ever handed out, and none once the instance is
/// initialized; the queue stays within its capacity and never changes its
/// configuration.
pub proof fn lemma_one_pair_per_instance<T>(before: QueueState<T>, calls: Seq<QueueCall<T>>)
    ensures
        before.pairs_handed_out(calls) <= 1,
        before.initialized ==> before.pairs_handed_out(calls) == 0,
        before.initialized ==> before.after_calls(calls).initialized,
        before.pairs_handed_out(calls) == 1 ==> before.after_calls(calls).initialized,
        before.wf() ==> before.after_calls(calls).wf(),
        before.after_calls(calls).capacity == before.capacity,
        before.after_calls(calls).policy == before.policy,
    decreases calls.len(),
{
    if calls.len() > 0 {
        lemma_one_pair_per_instance(before, calls.drop_last());
    }
}

} // verus!
