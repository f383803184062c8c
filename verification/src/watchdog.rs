//! The deadline watchdog sink: a single-slot channel that every signaler
//! activation overwrites with its timestamp, for a deadline-miss monitor to
//! pick up.

use crate::slot::{stamp_held, stamp_new, stamp_take, stamp_write};
use rtic_sync::signal::Signal;
use vstd::prelude::*;

verus! {

/// A single-slot, overwrite-on-write channel of activation timestamps, in
/// ticks of the monotonic clock.
pub struct WatchdogSink {
    slot: Signal<u64>,
}

impl View for WatchdogSink {
    type V = Option<u64>;

    /// The last timestamp written and not yet read, if any.
    closed spec fn view(&self) -> Option<u64> {
        stamp_held(self.slot)
    }
}

impl WatchdogSink {
    /// A sink that holds nothing.
    pub fn new() -> (sink: Self)
        ensures
            sink@ == None::<u64>,
    {
        WatchdogSink { slot: stamp_new() }
    }

    /// Records an activation: the slot holds `ticks`, and an unread older
    /// timestamp is overwritten. One store, whatever the slot held.
    pub fn write(&mut self, ticks: u64)
        ensures
            final(self)@ == Some(ticks),
    {
        stamp_write(&mut self.slot, ticks);
    }

    /// The monitor's read: hands out the held timestamp and empties the slot.
    pub fn take(&mut self) -> (taken: Option<u64>)
        ensures
            taken == old(self)@,
            final(self)@ == None::<u64>,
    {
        stamp_take(&mut self.slot)
    }
}

} // verus!
