//! The mathematical model of the transaction engine.
//!
//! A transaction is abstracted as a [`TxView`]: whether it has closed,
//! whether it was opened writable, and the contents of its private working
//! copy. Every operation of [`crate::tx::Tx`] is specified as a pure
//! transition on this view, and the laws of the engine — isolation, atomic
//! publication, terminal errors, read-only immutability — are proved here
//! about those transitions.

use vstd::prelude::*;

use crate::error::Error;

verus! {

/// The abstract state of one transaction: the `closed` and `writable` flags
/// and the contents of its private working copy.
pub struct TxView {
    /// Whether the transaction has committed or rolled back.
    pub closed: bool,
    /// Whether mutating operations and commit are permitted.
    pub writable: bool,
    /// The entries of the transaction's working copy.
    pub data: Map<Seq<char>, Seq<char>>,
}

/// The view of a transaction freshly begun against the published snapshot
/// `published`: open, writable as requested, seeing exactly the published
/// entries.
pub open spec fn begin_view(published: Map<Seq<char>, Seq<char>>, write: bool) -> TxView {
    TxView { closed: false, writable: write, data: published }
}

/// Whether a result is the `TxClosed` failure.
pub open spec fn is_tx_closed_err<T>(r: Result<T, Error>) -> bool {
    r matches Err(e) && e == Error::TxClosed
}

/// Whether a result is the `TxNotWritable` failure.
pub open spec fn is_not_writable_err<T>(r: Result<T, Error>) -> bool {
    r matches Err(e) && e == Error::TxNotWritable
}

/// The answer a plain lookup in the map `m` gives for key `k`: the bound
/// value, or nothing when the key is absent.
pub open spec fn lookup(m: Map<Seq<char>, Seq<char>>, k: Seq<char>) -> Result<
    Option<Seq<char>>,
    Error,
> {
    if m.dom().contains(k) {
        Ok(Some(m[k]))
    } else {
        Ok(None)
    }
}

/// What `contains` returns on a transaction in state `t` for key `k`.
pub open spec fn contains_tr(t: TxView, k: Seq<char>) -> Result<bool, Error> {
    if t.closed {
        Err(Error::TxClosed)
    } else {
        Ok(t.data.dom().contains(k))
    }
}

/// What `get` returns on a transaction in state `t` for key `k`.
pub open spec fn get_tr(t: TxView, k: Seq<char>) -> Result<Option<Seq<char>>, Error> {
    if t.closed {
        Err(Error::TxClosed)
    } else if t.data.dom().contains(k) {
        Ok(Some(t.data[k]))
    } else {
        Ok(None)
    }
}

/// The state after `set` on a transaction in state `t`, and its result.
pub open spec fn set_tr(t: TxView, k: Seq<char>, v: Seq<char>) -> (TxView, Result<(), Error>) {
    if t.closed {
        (t, Err(Error::TxClosed))
    } else if !t.writable {
        (t, Err(Error::TxNotWritable))
    } else {
        (TxView { data: t.data.insert(k, v), ..t }, Ok(()))
    }
}

/// The state after `del` on a transaction in state `t`, and its result.
/// Removing an absent key is a no-op success.
pub open spec fn del_tr(t: TxView, k: Seq<char>) -> (TxView, Result<(), Error>) {
    if t.closed {
        (t, Err(Error::TxClosed))
    } else if !t.writable {
        (t, Err(Error::TxNotWritable))
    } else {
        (TxView { data: t.data.remove(k), ..t }, Ok(()))
    }
}

/// The state after `commit` on a transaction in state `t`, and its result.
/// The checks fail without closing the transaction; only a passing commit
/// closes it.
pub open spec fn commit_tr(t: TxView) -> (TxView, Result<(), Error>) {
    if t.closed {
        (t, Err(Error::TxClosed))
    } else if !t.writable {
        (t, Err(Error::TxNotWritable))
    } else {
        (TxView { closed: true, ..t }, Ok(()))
    }
}

/// What a commit on a transaction in state `t` publishes as the store's new
/// snapshot: exactly the transaction's working copy when the commit passes
/// its checks, and nothing at all otherwise.
pub open spec fn commit_published(t: TxView) -> Option<Map<Seq<char>, Seq<char>>> {
    if !t.closed && t.writable {
        Some(t.data)
    } else {
        None
    }
}

/// The state after `rollback` on a transaction in state `t`, and its
/// result. Rollback is permitted on read and write transactions alike.
pub open spec fn rollback_tr(t: TxView) -> (TxView, Result<(), Error>) {
    if t.closed {
        (t, Err(Error::TxClosed))
    } else {
        (TxView { closed: true, ..t }, Ok(()))
    }
}

/// The whole engine at one instant: the snapshot the store has published,
/// and the views of the transactions handed out so far, in the order they
/// were begun. Each operation of the engine is one step on this state:
/// `begin` appends a view capturing the published snapshot, and every other
/// operation rewrites exactly one transaction's entry — which is what makes
/// the isolation and exclusivity laws below statements about *all*
/// interleavings of transactions, not about one handle at a time.
pub struct SysView {
    /// The current committed snapshot.
    pub published: Map<Seq<char>, Seq<char>>,
    /// The transactions begun so far, open or closed.
    pub txs: Seq<TxView>,
}

/// The engine after `begin(write)`: a new transaction is appended, seeing
/// exactly the published snapshot; nothing else moves.
pub open spec fn sys_begin(s: SysView, write: bool) -> SysView {
    SysView { txs: s.txs.push(begin_view(s.published, write)), ..s }
}

/// The engine after `set` on transaction `i`.
pub open spec fn sys_set(s: SysView, i: int, k: Seq<char>, v: Seq<char>) -> SysView {
    SysView { txs: s.txs.update(i, set_tr(s.txs[i], k, v).0), ..s }
}

/// The engine after `del` on transaction `i`.
pub open spec fn sys_del(s: SysView, i: int, k: Seq<char>) -> SysView {
    SysView { txs: s.txs.update(i, del_tr(s.txs[i], k).0), ..s }
}

/// The engine after `rollback` on transaction `i`: the transaction closes
/// (if it was open) and the published snapshot is untouched.
pub open spec fn sys_rollback(s: SysView, i: int) -> SysView {
    SysView { txs: s.txs.update(i, rollback_tr(s.txs[i]).0), ..s }
}

/// The engine after `commit` on transaction `i`: when the commit passes its
/// checks the working copy of `i` becomes the published snapshot, in one
/// step; when it fails, nothing at all changes.
pub open spec fn sys_commit(s: SysView, i: int) -> SysView {
    match commit_published(s.txs[i]) {
        Some(m) => SysView { published: m, txs: s.txs.update(i, commit_tr(s.txs[i]).0) },
        None => SysView { published: s.published, txs: s.txs.update(i, commit_tr(s.txs[i]).0) },
    }
}

/// Whether transaction `t` is an active writer: open, not yet closed, and
/// permitted to mutate.
pub open spec fn open_write(t: TxView) -> bool {
    !t.closed && t.writable
}

/// Whether no transaction of the engine is an active writer — the condition
/// under which the writer token admits a new write transaction.
pub open spec fn no_open_writer(s: SysView) -> bool {
    forall|i: int| 0 <= i < s.txs.len() ==> !open_write(#[trigger] s.txs[i])
}

/// Whether at most one transaction of the engine is an active writer.
pub open spec fn writer_excl(s: SysView) -> bool {
    forall|i: int, j: int|
        0 <= i < s.txs.len() && 0 <= j < s.txs.len() && i != j ==> !(open_write(
            #[trigger] s.txs[i],
        ) && open_write(#[trigger] s.txs[j]))
}

/// Isolation, over every interleaving: whatever operation one transaction
/// performs — a write, a delete, a commit that republishes the store, a
/// rollback — and whatever transaction is begun besides, every *other*
/// transaction's view is left exactly as it was, so all of its subsequent
/// reads answer as before.
pub proof fn lemma_sys_isolation(
    s: SysView,
    i: int,
    j: int,
    w: bool,
    k: Seq<char>,
    v: Seq<char>,
    key: Seq<char>,
)
    requires
        0 <= i < s.txs.len(),
        0 <= j < s.txs.len(),
        j != i,
    ensures
        sys_set(s, i, k, v).txs[j] == s.txs[j],
        sys_del(s, i, k).txs[j] == s.txs[j],
        sys_commit(s, i).txs[j] == s.txs[j],
        sys_rollback(s, i).txs[j] == s.txs[j],
        sys_begin(s, w).txs[j] == s.txs[j],
        get_tr(sys_commit(s, i).txs[j], key) == get_tr(s.txs[j], key),
        contains_tr(sys_commit(s, i).txs[j], key) == contains_tr(s.txs[j], key),
{
}

/// Atomic publication, over the whole engine: when transaction `i` may
/// commit, its commit replaces the published snapshot with exactly its
/// working copy, and a transaction begun afterwards reads exactly those
/// entries.
pub proof fn lemma_sys_atomic_publication(s: SysView, i: int, w: bool, k: Seq<char>)
    requires
        0 <= i < s.txs.len(),
        !s.txs[i].closed,
        s.txs[i].writable,
    ensures
        sys_commit(s, i).published == s.txs[i].data,
        sys_begin(sys_commit(s, i), w).txs.last() == begin_view(s.txs[i].data, w),
        get_tr(sys_begin(sys_commit(s, i), w).txs.last(), k) == lookup(s.txs[i].data, k),
{
}

/// Write exclusivity: provided a write transaction is begun only while no
/// other write transaction is active — the admission that the store's
/// single-permit writer token enforces by blocking `begin` — every step of
/// the engine preserves "at most one active writer". The active lifetimes
/// of two write transactions therefore never overlap.
pub proof fn lemma_sys_write_exclusivity(s: SysView, i: int, k: Seq<char>, v: Seq<char>)
    requires
        writer_excl(s),
        0 <= i < s.txs.len(),
    ensures
        writer_excl(sys_set(s, i, k, v)),
        writer_excl(sys_del(s, i, k)),
        writer_excl(sys_commit(s, i)),
        writer_excl(sys_rollback(s, i)),
        writer_excl(sys_begin(s, false)),
        no_open_writer(s) ==> writer_excl(sys_begin(s, true)),
{
    assert forall|a: int, b: int|
        0 <= a < sys_set(s, i, k, v).txs.len() && 0 <= b < sys_set(s, i, k, v).txs.len() && a
            != b implies !(open_write(#[trigger] sys_set(s, i, k, v).txs[a]) && open_write(
        #[trigger] sys_set(s, i, k, v).txs[b],
    )) by {
        assert(open_write(sys_set(s, i, k, v).txs[a]) == open_write(s.txs[a]));
        assert(open_write(sys_set(s, i, k, v).txs[b]) == open_write(s.txs[b]));
    }
    assert forall|a: int, b: int|
        0 <= a < sys_del(s, i, k).txs.len() && 0 <= b < sys_del(s, i, k).txs.len() && a
            != b implies !(open_write(#[trigger] sys_del(s, i, k).txs[a]) && open_write(
        #[trigger] sys_del(s, i, k).txs[b],
    )) by {
        assert(open_write(sys_del(s, i, k).txs[a]) == open_write(s.txs[a]));
        assert(open_write(sys_del(s, i, k).txs[b]) == open_write(s.txs[b]));
    }
    assert forall|a: int, b: int|
        0 <= a < sys_commit(s, i).txs.len() && 0 <= b < sys_commit(s, i).txs.len() && a
            != b implies !(open_write(#[trigger] sys_commit(s, i).txs[a]) && open_write(
        #[trigger] sys_commit(s, i).txs[b],
    )) by {
        if a != i {
            assert(open_write(sys_commit(s, i).txs[a]) == open_write(s.txs[a]));
        }
        if b != i {
            assert(open_write(sys_commit(s, i).txs[b]) == open_write(s.txs[b]));
        }
    }
    assert forall|a: int, b: int|
        0 <= a < sys_rollback(s, i).txs.len() && 0 <= b < sys_rollback(s, i).txs.len() && a
            != b implies !(open_write(#[trigger] sys_rollback(s, i).txs[a]) && open_write(
        #[trigger] sys_rollback(s, i).txs[b],
    )) by {
        if a != i {
            assert(open_write(sys_rollback(s, i).txs[a]) == open_write(s.txs[a]));
        }
        if b != i {
            assert(open_write(sys_rollback(s, i).txs[b]) == open_write(s.txs[b]));
        }
    }
}

/// Isolation: what a transaction reads is determined by its own captured
/// working copy alone. Two transactions whose views hold the same data give
/// the same answers, whatever else — the store's current snapshot, other
/// transactions' writes, later commits — may differ around them; and an
/// open transaction reads exactly the snapshot it was begun from.
pub proof fn lemma_isolation(t1: TxView, t2: TxView, k: Seq<char>)
    requires
        t1.closed == t2.closed,
        t1.data == t2.data,
    ensures
        get_tr(t1, k) == get_tr(t2, k),
        contains_tr(t1, k) == contains_tr(t2, k),
        !t1.closed ==> get_tr(t1, k) == lookup(t1.data, k),
{
}

/// Atomic publication: a passing commit publishes exactly the working copy
/// of the committing transaction — the full set of its accumulated
/// mutations, never a partial subset — and a transaction subsequently begun
/// from that published snapshot sees exactly those entries.
pub proof fn lemma_atomic_publication(t: TxView, w: bool, k: Seq<char>)
    requires
        !t.closed,
        t.writable,
    ensures
        commit_tr(t).1 is Ok,
        commit_published(t) == Some(t.data),
        begin_view(t.data, w).data == t.data,
        get_tr(begin_view(t.data, w), k) == lookup(t.data, k),
{
}

/// Terminal idempotence of errors: once a transaction has closed, by commit
/// or by rollback, every operation fails with `TxClosed` and leaves the
/// state unchanged, every time.
pub proof fn lemma_closed_is_terminal(t: TxView, k: Seq<char>, v: Seq<char>)
    requires
        t.closed,
    ensures
        is_tx_closed_err(contains_tr(t, k)),
        is_tx_closed_err(get_tr(t, k)),
        set_tr(t, k, v).0 == t && is_tx_closed_err(set_tr(t, k, v).1),
        del_tr(t, k).0 == t && is_tx_closed_err(del_tr(t, k).1),
        commit_tr(t).0 == t && is_tx_closed_err(commit_tr(t).1),
        rollback_tr(t).0 == t && is_tx_closed_err(rollback_tr(t).1),
{
}

/// Closing is reached only through commit or rollback: both terminal
/// transitions close the state, and every other operation leaves the
/// `closed` and `writable` flags exactly as they were.
pub proof fn lemma_close_paths(t: TxView, k: Seq<char>, v: Seq<char>)
    requires
        !t.closed,
    ensures
        rollback_tr(t).0.closed,
        commit_tr(t).1 is Ok ==> commit_tr(t).0.closed,
        set_tr(t, k, v).0.closed == t.closed && set_tr(t, k, v).0.writable == t.writable,
        del_tr(t, k).0.closed == t.closed && del_tr(t, k).0.writable == t.writable,
{
}

/// Read-only immutability: on a transaction opened with `write` false,
/// `set`, `del` and `commit` all fail with `TxNotWritable` and change
/// nothing, while `rollback` succeeds exactly once — the first call closes
/// the transaction, and a second call fails with `TxClosed`.
pub proof fn lemma_read_only_immutable(t: TxView, k: Seq<char>, v: Seq<char>)
    requires
        !t.closed,
        !t.writable,
    ensures
        set_tr(t, k, v).0 == t && is_not_writable_err(set_tr(t, k, v).1),
        del_tr(t, k).0 == t && is_not_writable_err(del_tr(t, k).1),
        commit_tr(t).0 == t && is_not_writable_err(commit_tr(t).1),
        rollback_tr(t).1 is Ok,
        rollback_tr(t).0.data == t.data,
        is_tx_closed_err(rollback_tr(rollback_tr(t).0).1),
{
}

} // verus!
