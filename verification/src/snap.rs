//! The persistent ordered map that snapshots and working copies are made of.
//!
//! The store does not build this structure itself: it relies on imbl's
//! `OrdMap`, an immutable B+ tree with structural sharing, where `clone` is
//! O(1) and every mutation copies only the path it touches. The verifier
//! cannot take that type's declaration (its pointer-kind parameter is bound
//! by an outside trait), so [`Snapshot`] holds it in an opaque field, and
//! each operation the engine calls gets a contract over [`map_model`], the
//! mathematical contents of a snapshot value.

use vstd::prelude::*;

verus! {

/// One immutable version of the dataset: a persistent ordered map from
/// string keys to string values. Held opaquely; what a value of this type
/// contains is given by [`map_model`], and the operations below are the only
/// way the engine touches it.
#[verifier::external_body]
pub struct Snapshot {
    inner: imbl::OrdMap<String, String>,
}

/// The entries held by a [`Snapshot`], as a mathematical map from key
/// characters to value characters. Every snapshot holds finitely many
/// entries; the trusted operations below say how each call relates to this
/// model.
pub uninterp spec fn map_model(m: Snapshot) -> Map<Seq<char>, Seq<char>>;

/// The model of a snapshot with no entries.
pub open spec fn empty_model() -> Map<Seq<char>, Seq<char>> {
    Map::empty()
}

/// Relies on imbl's `GenericOrdMap::new`: constructs the empty map.
#[verifier::external_body]
pub(crate) fn map_new() -> (r: Snapshot)
    ensures
        map_model(r) == empty_model(),
{
    Snapshot { inner: imbl::OrdMap::new() }
}

/// Relies on imbl's `GenericOrdMap::clone`: an O(1) copy that shares the
/// whole structure, holding exactly the same entries.
#[verifier::external_body]
pub(crate) fn map_clone(m: &Snapshot) -> (r: Snapshot)
    ensures
        map_model(r) == map_model(*m),
{
    Snapshot { inner: m.inner.clone() }
}

/// Relies on imbl's `GenericOrdMap::len`: the number of entries.
#[verifier::external_body]
pub(crate) fn map_len(m: &Snapshot) -> (r: usize)
    requires
        map_model(*m).dom().finite(),
    ensures
        r as nat == map_model(*m).dom().len(),
{
    m.inner.len()
}

/// Relies on imbl's `GenericOrdMap::contains_key`: whether the key is bound.
#[verifier::external_body]
pub(crate) fn map_contains(m: &Snapshot, key: &String) -> (r: bool)
    ensures
        r == map_model(*m).dom().contains(key@),
{
    m.inner.contains_key(key)
}

/// Relies on imbl's `GenericOrdMap::get`: the value bound to the key, if
/// any, copied out of the map.
#[verifier::external_body]
pub(crate) fn map_get(m: &Snapshot, key: &String) -> (r: Option<String>)
    ensures
        match r {
            Some(v) => map_model(*m).dom().contains(key@) && v@ == map_model(*m)[key@],
            None => !map_model(*m).dom().contains(key@),
        },
{
    m.inner.get(key).cloned()
}

/// Relies on imbl's `GenericOrdMap::insert`: binds the key to the value,
/// replacing any previous binding; copy-on-write, so structure shared with
/// other map values is copied before being touched.
#[verifier::external_body]
pub(crate) fn map_insert(m: &mut Snapshot, key: String, value: String)
    ensures
        map_model(*final(m)) == map_model(*old(m)).insert(key@, value@),
{
    m.inner.insert(key, value);
}

/// Relies on imbl's `GenericOrdMap::remove`: unbinds the key if it is bound,
/// and does nothing otherwise; copy-on-write as for insert.
#[verifier::external_body]
pub(crate) fn map_remove(m: &mut Snapshot, key: &String)
    ensures
        map_model(*final(m)) == map_model(*old(m)).remove(key@),
{
    m.inner.remove(key);
}

} // verus!
