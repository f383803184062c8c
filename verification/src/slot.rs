//! The "latest only" value store of `rtic_sync`, held by value and reached
//! through exclusive borrows only, so that what it holds can be spoken of in
//! contracts.
//!
//! Nothing in this file is proved: each function states what the source of
//! `rtic_sync::signal` shows of the call it makes. A store is only ever
//! touched by the functions here, each of which drops the writer or reader
//! it takes before it returns; so `take_reader`, which panics while another
//! reader of the same store is alive, never finds one.

use rtic_sync::signal::Signal;
use vstd::prelude::*;

verus! {

/// `rtic_sync::signal::Signal`, opaque to the verifier.
#[verifier::external_type_specification]
#[verifier::external_body]
#[verifier::reject_recursive_types(T)]
pub struct ExSignal<T: Copy>(Signal<T>);

/// A store of unit notifications: a `Signal<()>`, in which at most one
/// notification is pending at a time. Opaque to the verifier.
#[verifier::external_body]
pub struct PresenceFlag {
    inner: Signal<()>,
}

/// Whether a unit notification is pending in the store.
pub uninterp spec fn flag_pending(store: PresenceFlag) -> bool;

/// The timestamp held by the store, if any.
pub uninterp spec fn stamp_held(store: Signal<u64>) -> Option<u64>;

/// `Signal::new`: a fresh store is unset.
#[verifier::external_body]
pub(crate) fn flag_new() -> (store: PresenceFlag)
    ensures
        !flag_pending(store),
{
    PresenceFlag { inner: Signal::new() }
}

/// `SignalWriter::write` on a unit store: afterwards a notification is
/// pending, whatever was held before.
#[verifier::external_body]
pub(crate) fn flag_raise(store: &mut PresenceFlag)
    ensures
        flag_pending(*final(store)),
{
    store.inner.writer().write(())
}

/// `SignalReader::try_read` on a unit store: hands out the pending
/// notification, if there is one, and leaves the store unset.
#[verifier::external_body]
pub(crate) fn flag_take(store: &mut PresenceFlag) -> (taken: Option<()>)
    ensures
        taken.is_some() == flag_pending(*old(store)),
        !flag_pending(*final(store)),
{
    store.inner.take_reader().try_read()
}

/// `Signal::new`: a fresh store holds no timestamp.
#[verifier::external_body]
pub(crate) fn stamp_new() -> (store: Signal<u64>)
    ensures
        stamp_held(store).is_none(),
{
    Signal::new()
}

/// `SignalWriter::write`: the store holds the written timestamp, and
/// whatever it held before is gone.
#[verifier::external_body]
pub(crate) fn stamp_write(store: &mut Signal<u64>, ticks: u64)
    ensures
        stamp_held(*final(store)) == Some(ticks),
{
    store.writer().write(ticks)
}

/// `SignalReader::try_read`: hands out the held timestamp, if there is one,
/// and leaves the store empty.
#[verifier::external_body]
pub(crate) fn stamp_take(store: &mut Signal<u64>) -> (taken: Option<u64>)
    ensures
        taken == stamp_held(*old(store)),
        stamp_held(*final(store)).is_none(),
{
    store.take_reader().try_read()
}

} // verus!
