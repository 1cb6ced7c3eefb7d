//! Errors reported by the payment engine for rejected transactions.

use vstd::prelude::*;

verus! {

/// A per-transaction failure. Neither kind aborts the stream: the caller
/// logs the error and goes on with the next transaction.
#[derive(Debug)]
pub enum AccountProcesserError {
    /// Malformed or semantically invalid input: a negative amount, a missing
    /// amount where one is required, an over-withdrawal, a cross-client
    /// dispute, or an amount that would push a balance out of range.
    InvalidTransaction(String),
    /// A mutation was attempted on a locked account; carries the client id.
    AccountLocked(u16),
}

} // verus!
