//! The error taxonomy of the store: every fallible operation reports one of
//! these kinds, and none of them is retriable by the engine itself.

use vstd::prelude::*;

verus! {

/// Why a transaction operation was refused.
#[derive(Clone, Copy, Debug, PartialEq, Eq, Structural)]
pub enum Error {
    /// An unexpected internal failure. No operation of this engine currently
    /// produces it; it exists so that callers handle an open-ended case.
    Generic,
    /// The transaction has already committed or rolled back.
    TxClosed,
    /// A mutating operation was invoked on a read-only transaction.
    TxNotWritable,
}

} // verus!
