//! Transactions: serializable, isolated, all-or-nothing mutation of the
//! dataset.
//!
//! A [`Tx`] owns a private working copy of the snapshot that was published
//! when it began. Mutations apply only to that copy; isolation comes purely
//! from the value semantics of the persistent map, whose copy-on-write
//! branching means the copy never aliases what the store or any other
//! transaction is looking at. Every operation is specified as the matching
//! transition of [`crate::model`] on the transaction's view.
//!
//! A write transaction additionally owns the store's single writer permit
//! for its whole open lifetime — the well-formedness invariant [`Tx::wf`]
//! ties permit ownership exactly to being open and writable — so the active
//! lifetimes of two write transactions can never overlap: that is tokio's
//! single-permit mutex guarantee, taken on trust in
//! [`crate::shared::lock_acquire`].

use vstd::prelude::*;

use crate::error::Error;
use crate::model::commit_tr;
use crate::model::contains_tr;
use crate::model::del_tr;
use crate::model::get_tr;
use crate::model::rollback_tr;
use crate::model::set_tr;
use crate::model::TxView;
use crate::shared::slot_load;
use crate::shared::slot_store;
use crate::shared::SnapSlot;
use crate::shared::WriterPermit;
use crate::snap::map_clone;
use crate::snap::map_contains;
use crate::snap::map_get;
use crate::snap::map_insert;
use crate::snap::map_model;
use crate::snap::map_remove;
use crate::snap::Snapshot;

verus! {

/// A handle over a private, mutable working copy of a snapshot. Created by
/// [`crate::updb::Db::begin`]; terminated exactly once by [`Tx::commit`] or
/// [`Tx::rollback`], after which every operation fails with
/// [`Error::TxClosed`].
pub struct Tx {
    closed: bool,
    writable: bool,
    imm_data: Snapshot,
    lst_data: SnapSlot,
    writ_mux: Option<WriterPermit>,
}

impl View for Tx {
    type V = TxView;

    closed spec fn view(&self) -> TxView {
        TxView {
            closed: self.closed,
            writable: self.writable,
            data: map_model(self.imm_data),
        }
    }
}

/// The abstract contents of an exec `get` result, for stating that the call
/// answers exactly as the model transition does.
pub open spec fn view_get_result(r: Result<Option<String>, Error>) -> Result<
    Option<Seq<char>>,
    Error,
> {
    match r {
        Ok(Some(v)) => Ok(Some(v@)),
        Ok(None) => Ok(None),
        Err(e) => Err(e),
    }
}

impl Tx {
    /// Well-formedness: the working copy is a finite map, and the writer
    /// permit is held exactly while the transaction is open and writable —
    /// so closing a write transaction, by either terminal path, is also
    /// exactly when the store's writer admission frees up.
    pub closed spec fn wf(&self) -> bool {
        &&& self@.data.dom().finite()
        &&& (self.writ_mux is Some <==> (self.writable && !self.closed))
    }

    /// Opens a transaction over the snapshot currently published in
    /// `data_ptr`, holding `guard` — the store's writer permit — exactly
    /// when the transaction is writable.
    pub(crate) fn new(data_ptr: SnapSlot, writable: bool, guard: Option<WriterPermit>) -> (r: Tx)
        requires
            guard is Some <==> writable,
        ensures
            r.wf(),
            !r@.closed,
            r@.writable == writable,
    {
        Tx {
            writable,
            closed: false,
            imm_data: slot_load(&data_ptr),
            lst_data: data_ptr,
            writ_mux: guard,
        }
    }

    /// Whether the transaction has closed. A pure observer: it always
    /// succeeds, even on a closed transaction.
    pub fn closed(&self) -> (r: bool)
        ensures
            r == self@.closed,
    {
        self.closed
    }

    /// Closes the transaction and discards its working copy without
    /// publishing anything; the writer permit, if held, is released.
    /// Permitted on read and write transactions alike; fails only with
    /// `TxClosed`, on a transaction already closed.
    pub fn rollback(&mut self) -> (r: Result<(), Error>)
        requires
            old(self).wf(),
        ensures
            final(self).wf(),
            final(self)@ == rollback_tr(old(self)@).0,
            r == rollback_tr(old(self)@).1,
    {
        if self.closed {
            return Err(Error::TxClosed);
        }
        self.closed = true;
        // Dropping the permit releases the store's writer admission.
        self.writ_mux = None;
        Ok(())
    }

    /// Closes the transaction and atomically publishes its working copy as
    /// the store's new snapshot — every accumulated mutation becomes
    /// visible to subsequently-begun transactions in one indivisible
    /// pointer replacement (see [`crate::model::commit_published`]) — then
    /// releases the writer permit. The checks fail without closing: a
    /// closed transaction gives `TxClosed`, a read-only one
    /// `TxNotWritable`, and in both cases the store is untouched.
    pub fn commit(&mut self) -> (r: Result<(), Error>)
        requires
            old(self).wf(),
        ensures
            final(self).wf(),
            final(self)@ == commit_tr(old(self)@).0,
            r == commit_tr(old(self)@).1,
    {
        if self.closed {
            return Err(Error::TxClosed);
        }
        if !self.writable {
            return Err(Error::TxNotWritable);
        }
        self.closed = true;
        // Publish exactly the working copy: the O(1) clone hands the slot a
        // snapshot whose contents equal the working copy's model.
        slot_store(&self.lst_data, map_clone(&self.imm_data));
        self.writ_mux = None;
        Ok(())
    }

    /// Whether `key` is bound in the transaction's working copy. Allowed on
    /// read and write transactions; fails only with `TxClosed`.
    pub fn contains(&self, key: String) -> (r: Result<bool, Error>)
        ensures
            r == contains_tr(self@, key@),
    {
        if self.closed {
            return Err(Error::TxClosed);
        }
        Ok(map_contains(&self.imm_data, &key))
    }

    /// The value bound to `key` in the working copy, copied out, or `None`
    /// when the key is absent. Fails only with `TxClosed`.
    pub fn get(&self, key: String) -> (r: Result<Option<String>, Error>)
        ensures
            view_get_result(r) == get_tr(self@, key@),
    {
        if self.closed {
            return Err(Error::TxClosed);
        }
        Ok(map_get(&self.imm_data, &key))
    }

    /// Binds `key` to `value` in the working copy, replacing any previous
    /// binding. Nothing is visible outside this transaction until commit.
    /// Fails with `TxClosed` on a closed transaction and `TxNotWritable` on
    /// a read-only one, in that order of checking, and a failed call
    /// changes nothing.
    pub fn set(&mut self, key: String, value: String) -> (r: Result<(), Error>)
        requires
            old(self).wf(),
        ensures
            final(self).wf(),
            final(self)@ == set_tr(old(self)@, key@, value@).0,
            r == set_tr(old(self)@, key@, value@).1,
    {
        if self.closed {
            return Err(Error::TxClosed);
        }
        if !self.writable {
            return Err(Error::TxNotWritable);
        }
        map_insert(&mut self.imm_data, key, value);
        Ok(())
    }

    /// Unbinds `key` in the working copy; removing an absent key is a no-op
    /// success. Fails exactly as [`Tx::set`] does.
    pub fn del(&mut self, key: String) -> (r: Result<(), Error>)
        requires
            old(self).wf(),
        ensures
            final(self).wf(),
            final(self)@ == del_tr(old(self)@, key@).0,
            r == del_tr(old(self)@, key@).1,
    {
        if self.closed {
            return Err(Error::TxClosed);
        }
        if !self.writable {
            return Err(Error::TxNotWritable);
        }
        map_remove(&mut self.imm_data, &key);
        Ok(())
    }
}

} // verus!
