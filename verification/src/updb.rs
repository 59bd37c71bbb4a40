//! The store: the single source of truth for the latest committed snapshot,
//! and the arbiter of write admission.

use vstd::prelude::*;

use crate::error::Error;
use crate::shared::lock_acquire;
use crate::shared::lock_new;
use crate::shared::slot_load;
use crate::shared::slot_new;
use crate::shared::slot_share;
use crate::shared::SnapSlot;
use crate::shared::WriterLock;
use crate::snap::map_len;
use crate::snap::map_new;
use crate::tx::Tx;

verus! {

/// An in-memory, ordered key-value store with snapshot-isolated
/// transactions. Holds the current committed snapshot behind an atomically
/// swappable reference and a single writer-admission token; both are shared
/// with the transactions it hands out, so the store's own published state
/// changes underneath it as commits land, and only each [`Tx`] carries a
/// state the verifier can pin down.
pub struct Db {
    lock: WriterLock,
    data: SnapSlot,
}

/// Creates a store whose published snapshot is the empty map and whose
/// writer token is free. No failure mode.
pub fn new() -> Db {
    Db { lock: lock_new(), data: slot_new(map_new()) }
}

impl Db {
    /// Begins a transaction over the currently published snapshot. For
    /// `write` true, first acquires the store's single writer token —
    /// blocking while another write transaction is open, so the active
    /// lifetimes of two write transactions never overlap — and hands the
    /// permit to the transaction, which releases it on commit or rollback.
    /// For `write` false, returns at once and never blocks. Always
    /// succeeds: the `Result` carries no error in this design.
    pub fn begin(&self, write: bool) -> (r: Result<Tx, Error>)
        ensures
            (r matches Ok(t) && t.wf() && !t@.closed && t@.writable == write),
    {
        if write {
            let permit = lock_acquire(&self.lock);
            Ok(Tx::new(slot_share(&self.data), true, Some(permit)))
        } else {
            Ok(Tx::new(slot_share(&self.data), false, None))
        }
    }

    /// The entry count of the snapshot published at the instant of the
    /// call: purely observational, and not transactionally consistent with
    /// any open transaction. Which snapshot is current depends on commits
    /// racing with the call, which is why no stronger contract can be
    /// stated here; what a committed snapshot holds is pinned by
    /// [`crate::model::commit_published`] and the contracts of
    /// [`Tx::commit`].
    pub fn size(&self) -> usize {
        let current = slot_load(&self.data);
        map_len(&current)
    }
}

} // verus!
