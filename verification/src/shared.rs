//! The store's two shared-state primitives.
//!
//! [`SnapSlot`] is the atomically swappable pointer to the current committed
//! snapshot: it is only ever replaced whole, never mutated in place, so a
//! load always yields one fully-formed snapshot. [`WriterLock`] is the
//! single-permit writer-admission token; at most one [`WriterPermit`] of a
//! lock exists at any time, and dropping the permit frees the token. Both
//! are shared, concurrently mutated state: what a load or an acquisition
//! returns depends on what other threads have done, so the contracts here
//! state only what holds of every outcome, and the transaction logic is
//! verified for every value they may hand back.

use vstd::prelude::*;

use crate::snap::map_clone;
use crate::snap::map_model;
use crate::snap::Snapshot;

verus! {

/// A shared handle to the slot holding the current committed snapshot.
/// Cloning the handle (see [`slot_share`]) yields another handle to the same
/// slot, which is how a transaction keeps sight of the store it must publish
/// into.
#[verifier::external_body]
pub struct SnapSlot {
    ptr: std::sync::Arc<arc_swap::ArcSwap<Snapshot>>,
}

/// A shared handle to the store's writer-admission token.
#[verifier::external_body]
pub struct WriterLock {
    inner: std::sync::Arc<tokio::sync::Mutex<()>>,
}

/// Ownership of the writer-admission token. While a value of this type is
/// alive, no other write transaction can be admitted; dropping it releases
/// the token. Relies on tokio's `OwnedMutexGuard`, whose drop unlocks the
/// mutex it was taken from.
#[verifier::external_body]
pub struct WriterPermit {
    guard: tokio::sync::OwnedMutexGuard<()>,
}

/// Relies on arc_swap's `ArcSwapAny::new`: a fresh slot holding the given
/// snapshot.
#[verifier::external_body]
pub(crate) fn slot_new(initial: Snapshot) -> (r: SnapSlot) {
    SnapSlot { ptr: std::sync::Arc::new(arc_swap::ArcSwap::new(std::sync::Arc::new(initial))) }
}

/// Relies on std's `Arc::clone`: another handle to the same slot.
#[verifier::external_body]
pub(crate) fn slot_share(s: &SnapSlot) -> (r: SnapSlot) {
    SnapSlot { ptr: s.ptr.clone() }
}

/// Relies on arc_swap's `ArcSwapAny::load_full`: an atomic load of the
/// snapshot published at the instant of the call, copied out by imbl's O(1)
/// clone. Which snapshot that is depends on commits racing with the call,
/// so only what holds of every outcome is stated: the result is one whole,
/// finite snapshot.
#[verifier::external_body]
pub(crate) fn slot_load(s: &SnapSlot) -> (r: Snapshot)
    ensures
        map_model(r).dom().finite(),
{
    map_clone(&s.ptr.load_full())
}

/// Relies on arc_swap's `ArcSwapAny::store`: atomically replaces the slot's
/// pointer with the given snapshot, in one indivisible step; loads that
/// happen after the call yield the new snapshot, and no load ever observes
/// a partially replaced one.
#[verifier::external_body]
pub(crate) fn slot_store(s: &SnapSlot, m: Snapshot) {
    s.ptr.store(std::sync::Arc::new(m));
}

/// Relies on tokio's `Mutex::new`: a fresh, free writer-admission token.
#[verifier::external_body]
pub(crate) fn lock_new() -> (r: WriterLock) {
    WriterLock { inner: std::sync::Arc::new(tokio::sync::Mutex::new(())) }
}

/// Relies on tokio's `Mutex::blocking_lock_owned`: blocks the calling
/// thread until the token is free, then takes it; tokio guarantees at most
/// one outstanding permit per lock. The call must not be made from inside
/// an async runtime (tokio panics there to protect the executor); this
/// library is synchronous throughout and makes the call only on its
/// caller's own thread.
#[verifier::external_body]
pub(crate) fn lock_acquire(l: &WriterLock) -> (r: WriterPermit) {
    WriterPermit { guard: l.inner.clone().blocking_lock_owned() }
}

} // verus!
