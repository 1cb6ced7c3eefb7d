//! The engine's laws, proved once and for all over the mathematical model
//! that the executable contracts speak of.

use crate::PaymentEngine;
use crate::account::{
    AccountView, balanced, chargeback_outcome, chargeback_step, deposit_step, dispute_outcome,
    dispute_step, resolve_outcome, resolve_step, withdraw_step,
};
use crate::transactions::{Transaction, TransactionType, target_view, tx_account_step, tx_outcome};
use vstd::prelude::*;

verus! {

/// Law: every account operation preserves the balance equation
/// `total == available + held`.
pub proof fn lemma_ops_preserve_balance(a: AccountView, amount: i64, tx_id: u32)
    requires
        balanced(a),
    ensures
        balanced(deposit_step(a, amount)),
        balanced(withdraw_step(a, amount)),
        balanced(dispute_step(a, amount, tx_id)),
        balanced(resolve_step(a, tx_id)),
        balanced(chargeback_step(a, tx_id)),
{
}

/// Law: in a well-formed engine — as `new` builds it and every
/// `process_transaction` leaves it — every account satisfies the balance
/// equation.
pub proof fn lemma_engine_balanced(engine: &PaymentEngine, client_id: u16)
    requires
        engine.wf(),
        engine.accounts@.contains_key(client_id),
    ensures
        engine.accounts@[client_id]@.total == engine.accounts@[client_id]@.available
            + engine.accounts@[client_id]@.held,
{
}

/// Law: a locked account is frozen — no transaction of any kind changes any
/// of its fields.
pub proof fn lemma_locked_account_is_frozen(
    a: AccountView,
    ledger: Map<u32, Transaction>,
    t: Transaction,
)
    requires
        a.locked,
    ensures
        tx_account_step(a, ledger, t) == a,
{
}

/// Law: in a well-formed engine, once a client's account is locked, feeding
/// any further transaction leaves that account exactly as it was: one aimed
/// at this client steps it by `tx_account_step`, which changes nothing on a
/// locked account, and `process_transaction` ensures one aimed elsewhere
/// never touches it.
pub proof fn lemma_locked_client_survives_any_transaction(
    engine: &PaymentEngine,
    t: Transaction,
    client_id: u16,
)
    requires
        engine.wf(),
        engine.accounts@.contains_key(client_id),
        engine.accounts@[client_id]@.locked,
    ensures
        tx_account_step(
            target_view(engine.accounts@, client_id),
            engine.transaction_ledger@,
            t,
        ) == engine.accounts@[client_id]@,
{
}

/// Law: the lock is a one-way latch — no transaction ever clears it.
pub proof fn lemma_lock_is_one_way(a: AccountView, ledger: Map<u32, Transaction>, t: Transaction)
    ensures
        a.locked ==> tx_account_step(a, ledger, t).locked,
{
}

/// Law: on an unlocked account, resolving or charging back a transaction id
/// with no open dispute leaves the account unchanged and is reported as
/// success, not as an error. (On a locked account the lock error comes
/// first.)
pub proof fn lemma_unknown_reference_is_noop(a: AccountView, tx_id: u32)
    requires
        !a.locked,
        !a.disputes.contains_key(tx_id),
    ensures
        resolve_step(a, tx_id) == a,
        resolve_outcome(a, tx_id) is Ignored,
        chargeback_step(a, tx_id) == a,
        chargeback_outcome(a, tx_id) is Ignored,
{
}

/// Law: a dispute naming a transaction id the ledger has never recorded is
/// ignored: the account is unchanged and the result is success.
pub proof fn lemma_unknown_dispute_is_noop(
    a: AccountView,
    ledger: Map<u32, Transaction>,
    t: Transaction,
)
    requires
        t.transaction_type is Dispute,
        !ledger.contains_key(t.transaction_id),
    ensures
        tx_account_step(a, ledger, t) == a,
        tx_outcome(a, ledger, t) is Ignored,
{
}

/// Law: disputing the same transaction id twice in sequence double-applies
/// the amount — `available` drops and `held` grows by twice the disputed
/// amount, while the open-dispute set gains the id only once. Re-dispute is
/// deliberately not guarded.
pub proof fn lemma_double_dispute_double_applies(a: AccountView, amount: i64, tx_id: u32)
    requires
        dispute_outcome(a, amount) is Applied,
        dispute_outcome(dispute_step(a, amount, tx_id), amount) is Applied,
    ensures
        dispute_step(dispute_step(a, amount, tx_id), amount, tx_id).available == a.available - 2
            * amount,
        dispute_step(dispute_step(a, amount, tx_id), amount, tx_id).held == a.held + 2 * amount,
        dispute_step(dispute_step(a, amount, tx_id), amount, tx_id).disputes =~= a.disputes.insert(
            tx_id,
            amount,
        ),
{
}

} // verus!
