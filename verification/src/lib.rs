//! A payment engine: per-client account ledgers driven by a stream of
//! deposit, withdrawal, dispute, resolve and chargeback transactions.
//!
//! Amounts are integers in minor currency units (for example ten-thousandths
//! of the display unit), so all balance arithmetic is exact. The engine owns
//! every account and the ledger of past deposits and withdrawals; the caller
//! feeds it one transaction at a time and reads the final balances back. A
//! rejected transaction is reported to the caller and never aborts the
//! stream.

pub mod account;
pub mod error;
pub mod laws;
pub mod transactions;

use crate::account::{Account, outcome_matches};
use crate::error::AccountProcesserError;
use crate::transactions::{
    Transaction, ledger_step, maps_wf, process_transaction as route_transaction, target_view,
    tx_account_step, tx_outcome,
};
use std::collections::HashMap;
use vstd::prelude::*;

verus! {

/// The transaction processor: owns the per-client accounts and the ledger of
/// every deposit and withdrawal seen so far.
pub struct PaymentEngine {
    pub accounts: HashMap<u16, Account>,
    pub transaction_ledger: HashMap<u32, Transaction>,
}

impl PaymentEngine {
    /// Well-formedness: every stored account is keyed by its own client id
    /// and satisfies the balance equation, and every open dispute refers to
    /// a ledgered transaction id. `new` establishes this and
    /// `process_transaction` preserves it.
    pub open spec fn wf(&self) -> bool {
        maps_wf(self.accounts@, self.transaction_ledger@)
    }

    /// An engine with no accounts and an empty ledger.
    pub fn new() -> (engine: PaymentEngine)
        ensures
            engine.wf(),
            engine.accounts@ == Map::<u16, Account>::empty(),
            engine.transaction_ledger@ == Map::<u32, Transaction>::empty(),
    {
        PaymentEngine { accounts: HashMap::new(), transaction_ledger: HashMap::new() }
    }

    /// Feed one transaction to the engine, in stream order. The ensures pin
    /// the whole effect down: deposits and withdrawals are ledgered under
    /// their id before any validation, the target account is created on
    /// first reference and then stepped by the matching operation, no other
    /// account changes, and the result classifies the transaction exactly
    /// (success, including the deliberate no-ops; invalid input; or a locked
    /// account).
    pub fn process_transaction(&mut self, transaction: Transaction) -> (r: Result<
        (),
        AccountProcesserError,
    >)
        requires
            old(self).wf(),
        ensures
            final(self).wf(),
            final(self).transaction_ledger@ == ledger_step(
                old(self).transaction_ledger@,
                transaction,
            ),
            final(self).accounts@.dom() =~= old(self).accounts@.dom().insert(
                transaction.client_id,
            ),
            forall|c: u16|
                c != transaction.client_id && old(self).accounts@.contains_key(c)
                    ==> final(self).accounts@.contains_key(c) && final(self).accounts@[c] == old(
                    self,
                ).accounts@[c],
            final(self).accounts@[transaction.client_id]@ == tx_account_step(
                target_view(old(self).accounts@, transaction.client_id),
                old(self).transaction_ledger@,
                transaction,
            ),
            outcome_matches(
                r,
                tx_outcome(
                    target_view(old(self).accounts@, transaction.client_id),
                    old(self).transaction_ledger@,
                    transaction,
                ),
                transaction.client_id,
            ),
    {
        route_transaction(&mut self.accounts, &mut self.transaction_ledger, transaction)
    }

    /// The accounts as processed so far, keyed by client id.
    pub fn get_accounts(&self) -> (accounts: &HashMap<u16, Account>)
        ensures
            accounts == &self.accounts,
    {
        &self.accounts
    }
}

impl Default for PaymentEngine {
    /// The same engine `new` builds: no accounts, empty ledger.
    fn default() -> (engine: PaymentEngine)
        ensures
            engine.wf(),
            engine.accounts@ == Map::<u16, Account>::empty(),
            engine.transaction_ledger@ == Map::<u32, Transaction>::empty(),
    {
        PaymentEngine::new()
    }
}

} // verus!
