//! An in-memory, ordered key-value store with snapshot-isolated transactions.
//!
//! A [`updb::Db`] holds the latest committed snapshot of the dataset behind an
//! atomically swappable pointer, together with a single writer-admission
//! token. [`updb::Db::begin`] hands out a [`tx::Tx`]: a private working copy
//! of the snapshot (cheap, by structural sharing of the persistent map) that
//! the transaction mutates in isolation until `commit` publishes it in one
//! atomic pointer replacement, or `rollback` discards it.

pub mod error;
pub mod model;
pub mod shared;
pub mod snap;
pub mod tx;
pub mod updb;

pub use crate::error::Error;
pub use crate::tx::Tx;
pub use crate::updb::new;
pub use crate::updb::Db;
