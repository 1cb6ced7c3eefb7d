//! Transaction records, and the routing of one incoming transaction to the
//! owning account: lazy account creation, ledger recording, and the
//! cross-reference checks for dispute-class transactions.

use crate::account::{
    Account, AccountView, OpOutcome, balanced, chargeback_outcome, chargeback_step,
    deposit_outcome, deposit_step, dispute_outcome, dispute_step, new_account_view,
    outcome_matches, resolve_outcome, resolve_step, withdraw_outcome, withdraw_step,
};
use crate::error::AccountProcesserError;
use std::collections::HashMap;
use vstd::prelude::*;

verus! {

/// The five kinds of transaction in the input stream.
#[derive(Debug, Clone, Copy)]
pub enum TransactionType {
    Deposit,
    Withdrawal,
    Dispute,
    Resolve,
    Chargeback,
}

/// One record of the input stream. Deposits and withdrawals carry an amount
/// in minor currency units; dispute-class records carry none and instead
/// reuse the `transaction_id` of the deposit or withdrawal they reference.
#[derive(Debug, Clone, Copy)]
pub struct Transaction {
    pub transaction_type: TransactionType,
    pub client_id: u16,
    pub transaction_id: u32,
    pub amount: Option<i64>,
}

/// The target account's state before a transaction touches it: the stored
/// account, or a fresh one created lazily on first reference.
pub open spec fn target_view(accounts: Map<u16, Account>, client_id: u16) -> AccountView {
    if accounts.contains_key(client_id) {
        accounts[client_id]@
    } else {
        new_account_view(client_id)
    }
}

/// The ledger after a transaction: deposits and withdrawals are recorded
/// under their id (before any validation, so even a rejected one stays
/// referenceable); dispute-class transactions are never recorded.
pub open spec fn ledger_step(ledger: Map<u32, Transaction>, t: Transaction) -> Map<
    u32,
    Transaction,
> {
    match t.transaction_type {
        TransactionType::Deposit => ledger.insert(t.transaction_id, t),
        TransactionType::Withdrawal => ledger.insert(t.transaction_id, t),
        _ => ledger,
    }
}

/// How processing one transaction against the given pre-state ends. A
/// deposit or withdrawal without an amount is invalid. A dispute whose id is
/// not in the ledger is ignored; one naming another client's transaction is
/// invalid; otherwise the ledger entry's amount is disputed. Resolves and
/// chargebacks go straight to the account's own open-dispute set.
pub open spec fn tx_outcome(
    a: AccountView,
    ledger: Map<u32, Transaction>,
    t: Transaction,
) -> OpOutcome {
    match t.transaction_type {
        TransactionType::Deposit => match t.amount {
            Some(amount) => deposit_outcome(a, amount),
            None => OpOutcome::RejectedInvalid,
        },
        TransactionType::Withdrawal => match t.amount {
            Some(amount) => withdraw_outcome(a, amount),
            None => OpOutcome::RejectedInvalid,
        },
        TransactionType::Dispute => {
            if !ledger.contains_key(t.transaction_id) {
                OpOutcome::Ignored
            } else if ledger[t.transaction_id].client_id != t.client_id {
                OpOutcome::RejectedInvalid
            } else {
                match ledger[t.transaction_id].amount {
                    Some(amount) => dispute_outcome(a, amount),
                    None => OpOutcome::RejectedInvalid,
                }
            }
        },
        TransactionType::Resolve => resolve_outcome(a, t.transaction_id),
        TransactionType::Chargeback => chargeback_outcome(a, t.transaction_id),
    }
}

/// The target account's state after one transaction: the matching account
/// operation where the transaction validates, the unchanged account
/// otherwise.
pub open spec fn tx_account_step(
    a: AccountView,
    ledger: Map<u32, Transaction>,
    t: Transaction,
) -> AccountView {
    match t.transaction_type {
        TransactionType::Deposit => match t.amount {
            Some(amount) => deposit_step(a, amount),
            None => a,
        },
        TransactionType::Withdrawal => match t.amount {
            Some(amount) => withdraw_step(a, amount),
            None => a,
        },
        TransactionType::Dispute => {
            if ledger.contains_key(t.transaction_id) && ledger[t.transaction_id].client_id
                == t.client_id {
                match ledger[t.transaction_id].amount {
                    Some(amount) => dispute_step(a, amount, t.transaction_id),
                    None => a,
                }
            } else {
                a
            }
        },
        TransactionType::Resolve => resolve_step(a, t.transaction_id),
        TransactionType::Chargeback => chargeback_step(a, t.transaction_id),
    }
}

/// Well-formedness of the account collection and the ledger together: every
/// stored account is keyed by its own client id and satisfies the balance
/// equation, and every open dispute refers to a ledgered transaction id.
pub open spec fn maps_wf(accounts: Map<u16, Account>, ledger: Map<u32, Transaction>) -> bool {
    &&& forall|c: u16|
        accounts.contains_key(c) ==> (#[trigger] accounts[c])@.client_id == c && balanced(
            accounts[c]@,
        )
    &&& forall|c: u16, tx_id: u32|
        accounts.contains_key(c) && #[trigger] accounts[c]@.disputes.contains_key(tx_id)
            ==> ledger.contains_key(tx_id)
}

/// Route one transaction: create the target account on first reference,
/// record deposits and withdrawals in the ledger, validate dispute-class
/// cross-references against the ledger, and apply the matching account
/// operation. A failure is reported to the caller and leaves every balance
/// unchanged; it never aborts the stream.
pub fn process_transaction(
    accounts: &mut HashMap<u16, Account>,
    transactions_ledger: &mut HashMap<u32, Transaction>,
    transaction: Transaction,
) -> (r: Result<(), AccountProcesserError>)
    requires
        maps_wf(old(accounts)@, old(transactions_ledger)@),
    ensures
        maps_wf(final(accounts)@, final(transactions_ledger)@),
        final(transactions_ledger)@ == ledger_step(old(transactions_ledger)@, transaction),
        final(accounts)@.dom() =~= old(accounts)@.dom().insert(transaction.client_id),
        forall|c: u16|
            c != transaction.client_id && old(accounts)@.contains_key(c)
                ==> final(accounts)@.contains_key(c) && final(accounts)@[c] == old(accounts)@[c],
        final(accounts)@[transaction.client_id]@ == tx_account_step(
            target_view(old(accounts)@, transaction.client_id),
            old(transactions_ledger)@,
            transaction,
        ),
        outcome_matches(
            r,
            tx_outcome(
                target_view(old(accounts)@, transaction.client_id),
                old(transactions_ledger)@,
                transaction,
            ),
            transaction.client_id,
        ),
{
    let client_id = transaction.client_id;
    // Accounts are created lazily: nothing says up front which clients exist
    // before a transaction names them.
    let mut account: Account = match accounts.remove(&client_id) {
        Some(existing) => existing,
        None => Account::new(client_id),
    };
    let result: Result<(), AccountProcesserError> = match transaction.transaction_type {
        TransactionType::Deposit => {
            transactions_ledger.insert(transaction.transaction_id, transaction);
            match transaction.amount {
                Some(amount) => account.deposit(amount),
                None => Err(
                    AccountProcesserError::InvalidTransaction(
                        "Deposit transaction must have an amount".to_string(),
                    ),
                ),
            }
        },
        TransactionType::Withdrawal => {
            transactions_ledger.insert(transaction.transaction_id, transaction);
            match transaction.amount {
                Some(amount) => account.withdrawl(amount),
                None => Err(
                    AccountProcesserError::InvalidTransaction(
                        "Withdrawal transaction must have an amount".to_string(),
                    ),
                ),
            }
        },
        TransactionType::Dispute => {
            match transactions_ledger.get(&transaction.transaction_id) {
                None => {
                    // The referenced transaction does not exist: ignored by
                    // design, not an error.
                    Ok(())
                },
                Some(disputed_transaction) => {
                    if transaction.client_id != disputed_transaction.client_id {
                        Err(
                            AccountProcesserError::InvalidTransaction(
                                "Dispute transaction must be for the same client as the disputed transaction".to_string(),
                            ),
                        )
                    } else {
                        match disputed_transaction.amount {
                            Some(amount) => account.dispute(amount, transaction.transaction_id),
                            None => Err(
                                AccountProcesserError::InvalidTransaction(
                                    "Dispute transaction must have an amount".to_string(),
                                ),
                            ),
                        }
                    }
                },
            }
        },
        TransactionType::Resolve => account.resolve(transaction.transaction_id),
        TransactionType::Chargeback => account.chargeback(transaction.transaction_id),
    };
    accounts.insert(client_id, account);
    result
}

} // verus!
