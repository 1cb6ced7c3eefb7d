//! One client's ledger: balances, the open-dispute set, and the chargeback
//! lock, together with the mathematical model of every balance operation.

use crate::error::AccountProcesserError;
use std::collections::HashMap;
use vstd::prelude::*;

verus! {

/// The mathematical state of one account: the balances as unbounded
/// integers and the open disputes as a map from transaction id to the
/// disputed amount.
#[verifier::ext_equal]
pub ghost struct AccountView {
    pub client_id: u16,
    pub available: int,
    pub held: int,
    pub total: int,
    pub locked: bool,
    pub disputes: Map<u32, i64>,
}

/// Whether a balance still fits the machine representation.
pub open spec fn in_i64_range(x: int) -> bool {
    i64::MIN <= x <= i64::MAX
}

/// The balance equation: the total is exactly the available funds plus the
/// held funds.
pub open spec fn balanced(a: AccountView) -> bool {
    a.total == a.available + a.held
}

/// A freshly created account: zero balances, unlocked, no open disputes.
pub open spec fn new_account_view(client_id: u16) -> AccountView {
    AccountView {
        client_id,
        available: 0,
        held: 0,
        total: 0,
        locked: false,
        disputes: Map::empty(),
    }
}

/// How one account operation ended.
pub ghost enum OpOutcome {
    /// The operation validated and the account changed.
    Applied,
    /// A resolve or chargeback named a transaction with no open dispute:
    /// ignored by design and reported as success.
    Ignored,
    /// The operation was rejected as invalid; the account is unchanged.
    RejectedInvalid,
    /// The account is locked; the account is unchanged.
    RejectedLocked,
}

/// Which result an operation with the given outcome reports: success for
/// `Applied` and `Ignored`, the matching error kind otherwise.
pub open spec fn outcome_matches(
    r: Result<(), AccountProcesserError>,
    o: OpOutcome,
    client_id: u16,
) -> bool {
    match o {
        OpOutcome::Applied => r is Ok,
        OpOutcome::Ignored => r is Ok,
        OpOutcome::RejectedInvalid => r matches Err(AccountProcesserError::InvalidTransaction(_)),
        OpOutcome::RejectedLocked => (r matches Err(AccountProcesserError::AccountLocked(c))
            && c == client_id),
    }
}

/// A deposit validates when the account is unlocked, the amount is
/// non-negative, and both updated balances stay representable.
pub open spec fn deposit_outcome(a: AccountView, amount: i64) -> OpOutcome {
    if a.locked {
        OpOutcome::RejectedLocked
    } else if amount < 0 {
        OpOutcome::RejectedInvalid
    } else if !in_i64_range(a.available + amount) || !in_i64_range(a.total + amount) {
        OpOutcome::RejectedInvalid
    } else {
        OpOutcome::Applied
    }
}

/// The account after a deposit: the amount is added to `available` and
/// `total`; on any rejection the account is unchanged.
pub open spec fn deposit_step(a: AccountView, amount: i64) -> AccountView {
    if deposit_outcome(a, amount) is Applied {
        AccountView { available: a.available + amount, total: a.total + amount, ..a }
    } else {
        a
    }
}

/// A withdrawal validates when the account is unlocked and the amount is
/// non-negative and no more than the available funds.
pub open spec fn withdraw_outcome(a: AccountView, amount: i64) -> OpOutcome {
    if a.locked {
        OpOutcome::RejectedLocked
    } else if amount < 0 {
        OpOutcome::RejectedInvalid
    } else if amount > a.available {
        OpOutcome::RejectedInvalid
    } else {
        OpOutcome::Applied
    }
}

/// The account after a withdrawal: the amount is taken from `available` and
/// `total`; on any rejection the account is unchanged.
pub open spec fn withdraw_step(a: AccountView, amount: i64) -> AccountView {
    if withdraw_outcome(a, amount) is Applied {
        AccountView { available: a.available - amount, total: a.total - amount, ..a }
    } else {
        a
    }
}

/// A dispute validates when the account is unlocked and both updated
/// balances stay representable. It is deliberately not guarded against
/// driving `available` negative, nor against re-disputing an id that is
/// already open.
pub open spec fn dispute_outcome(a: AccountView, amount: i64) -> OpOutcome {
    if a.locked {
        OpOutcome::RejectedLocked
    } else if !in_i64_range(a.available - amount) || !in_i64_range(a.held + amount) {
        OpOutcome::RejectedInvalid
    } else {
        OpOutcome::Applied
    }
}

/// The account after a dispute: the amount moves from `available` to `held`
/// and the id is recorded as open; on any rejection the account is
/// unchanged.
pub open spec fn dispute_step(a: AccountView, amount: i64, tx_id: u32) -> AccountView {
    if dispute_outcome(a, amount) is Applied {
        AccountView {
            available: a.available - amount,
            held: a.held + amount,
            disputes: a.disputes.insert(tx_id, amount),
            ..a
        }
    } else {
        a
    }
}

/// A resolve on an unlocked account is ignored when the id has no open
/// dispute, and validates otherwise if both updated balances stay
/// representable.
pub open spec fn resolve_outcome(a: AccountView, tx_id: u32) -> OpOutcome {
    if a.locked {
        OpOutcome::RejectedLocked
    } else if !a.disputes.contains_key(tx_id) {
        OpOutcome::Ignored
    } else if !in_i64_range(a.available + a.disputes[tx_id]) || !in_i64_range(
        a.held - a.disputes[tx_id],
    ) {
        OpOutcome::RejectedInvalid
    } else {
        OpOutcome::Applied
    }
}

/// The account after a resolve: the disputed amount moves back from `held`
/// to `available` and the dispute closes; otherwise the account is
/// unchanged.
pub open spec fn resolve_step(a: AccountView, tx_id: u32) -> AccountView {
    if resolve_outcome(a, tx_id) is Applied {
        AccountView {
            available: a.available + a.disputes[tx_id],
            held: a.held - a.disputes[tx_id],
            disputes: a.disputes.remove(tx_id),
            ..a
        }
    } else {
        a
    }
}

/// A chargeback on an unlocked account is ignored when the id has no open
/// dispute, and validates otherwise if both updated balances stay
/// representable.
pub open spec fn chargeback_outcome(a: AccountView, tx_id: u32) -> OpOutcome {
    if a.locked {
        OpOutcome::RejectedLocked
    } else if !a.disputes.contains_key(tx_id) {
        OpOutcome::Ignored
    } else if !in_i64_range(a.held - a.disputes[tx_id]) || !in_i64_range(
        a.total - a.disputes[tx_id],
    ) {
        OpOutcome::RejectedInvalid
    } else {
        OpOutcome::Applied
    }
}

/// The account after a chargeback: the disputed amount leaves `held` and
/// `total`, the dispute closes, and the account locks for good; otherwise
/// the account is unchanged.
pub open spec fn chargeback_step(a: AccountView, tx_id: u32) -> AccountView {
    if chargeback_outcome(a, tx_id) is Applied {
        AccountView {
            held: a.held - a.disputes[tx_id],
            total: a.total - a.disputes[tx_id],
            locked: true,
            disputes: a.disputes.remove(tx_id),
            ..a
        }
    } else {
        a
    }
}

/// One client's ledger state. Amounts are integers in minor currency units.
pub struct Account {
    pub client_id: u16,
    /// Funds usable for withdrawal. A dispute lodged after the disputed
    /// funds were spent can drive this negative; that is accepted behaviour.
    pub available: i64,
    /// Funds frozen pending dispute resolution.
    pub held: i64,
    /// Always `available + held`.
    pub total: i64,
    /// One-way latch, set only by a successful chargeback; once set, every
    /// further operation on this account fails.
    pub locked: bool,
    /// The disputes currently open on this account: transaction id to the
    /// disputed amount.
    pub open_disputes: HashMap<u32, i64>,
}

impl View for Account {
    type V = AccountView;

    open spec fn view(&self) -> AccountView {
        AccountView {
            client_id: self.client_id,
            available: self.available as int,
            held: self.held as int,
            total: self.total as int,
            locked: self.locked,
            disputes: self.open_disputes@,
        }
    }
}

impl Account {
    /// Well-formedness: the balance equation holds.
    pub open spec fn inv(&self) -> bool {
        balanced(self@)
    }

    /// A zeroed, unlocked account with no open disputes.
    pub fn new(client_id: u16) -> (account: Account)
        ensures
            account@ == new_account_view(client_id),
            account.inv(),
    {
        Account {
            client_id,
            available: 0,
            held: 0,
            total: 0,
            locked: false,
            open_disputes: HashMap::new(),
        }
    }

    fn check_lock(&self) -> (r: Result<(), AccountProcesserError>)
        ensures
            r is Ok <==> !self@.locked,
            (r matches Err(e) ==> (e matches AccountProcesserError::AccountLocked(c) && c
                == self@.client_id)),
    {
        if self.locked {
            return Err(AccountProcesserError::AccountLocked(self.client_id));
        }
        Ok(())
    }

    /// Add funds: `available` and `total` both grow by the amount.
    pub fn deposit(&mut self, amount: i64) -> (r: Result<(), AccountProcesserError>)
        requires
            old(self).inv(),
        ensures
            final(self).inv(),
            final(self)@ == deposit_step(old(self)@, amount),
            outcome_matches(r, deposit_outcome(old(self)@, amount), old(self)@.client_id),
    {
        match self.check_lock() {
            Ok(()) => {},
            Err(e) => {
                return Err(e);
            },
        }
        if amount < 0 {
            return Err(
                AccountProcesserError::InvalidTransaction(
                    "Cannot deposit a negative amount".to_string(),
                ),
            );
        }
        let new_available = match self.available.checked_add(amount) {
            Some(v) => v,
            None => {
                return Err(
                    AccountProcesserError::InvalidTransaction(
                        "Deposit would push the available balance out of range".to_string(),
                    ),
                );
            },
        };
        let new_total = match self.total.checked_add(amount) {
            Some(v) => v,
            None => {
                return Err(
                    AccountProcesserError::InvalidTransaction(
                        "Deposit would push the total balance out of range".to_string(),
                    ),
                );
            },
        };
        self.available = new_available;
        self.total = new_total;
        Ok(())
    }

    /// Take funds out: fails on a negative amount or one above the available
    /// funds; on success `available` and `total` both shrink by the amount.
    pub fn withdrawl(&mut self, amount: i64) -> (r: Result<(), AccountProcesserError>)
        requires
            old(self).inv(),
        ensures
            final(self).inv(),
            final(self)@ == withdraw_step(old(self)@, amount),
            outcome_matches(r, withdraw_outcome(old(self)@, amount), old(self)@.client_id),
    {
        match self.check_lock() {
            Ok(()) => {},
            Err(e) => {
                return Err(e);
            },
        }
        if amount < 0 {
            return Err(
                AccountProcesserError::InvalidTransaction(
                    "Cannot withdraw a negative amount".to_string(),
                ),
            );
        }
        if amount > self.available {
            return Err(
                AccountProcesserError::InvalidTransaction(
                    "Cannot withdraw more than available".to_string(),
                ),
            );
        }
        self.available = self.available - amount;
        self.total = self.total - amount;
        Ok(())
    }

    /// Open a dispute: the amount moves from `available` to `held` (even if
    /// that drives `available` negative) and the id is recorded. The caller
    /// is responsible for the id being a real, not already disputed
    /// transaction of this client.
    pub fn dispute(&mut self, amount: i64, tx_id: u32) -> (r: Result<(), AccountProcesserError>)
        requires
            old(self).inv(),
        ensures
            final(self).inv(),
            final(self)@ == dispute_step(old(self)@, amount, tx_id),
            outcome_matches(r, dispute_outcome(old(self)@, amount), old(self)@.client_id),
    {
        match self.check_lock() {
            Ok(()) => {},
            Err(e) => {
                return Err(e);
            },
        }
        let new_available = match self.available.checked_sub(amount) {
            Some(v) => v,
            None => {
                return Err(
                    AccountProcesserError::InvalidTransaction(
                        "Dispute would push the available balance out of range".to_string(),
                    ),
                );
            },
        };
        let new_held = match self.held.checked_add(amount) {
            Some(v) => v,
            None => {
                return Err(
                    AccountProcesserError::InvalidTransaction(
                        "Dispute would push the held balance out of range".to_string(),
                    ),
                );
            },
        };
        self.available = new_available;
        self.held = new_held;
        self.open_disputes.insert(tx_id, amount);
        Ok(())
    }

    /// Close a dispute in the client's favour: the disputed amount moves
    /// back to `available`. An id with no open dispute is ignored.
    pub fn resolve(&mut self, tx_id: u32) -> (r: Result<(), AccountProcesserError>)
        requires
            old(self).inv(),
        ensures
            final(self).inv(),
            final(self)@ == resolve_step(old(self)@, tx_id),
            outcome_matches(r, resolve_outcome(old(self)@, tx_id), old(self)@.client_id),
    {
        match self.check_lock() {
            Ok(()) => {},
            Err(e) => {
                return Err(e);
            },
        }
        let amount: i64 = match self.open_disputes.get(&tx_id) {
            Some(a) => *a,
            None => {
                return Ok(());
            },
        };
        let new_available = match self.available.checked_add(amount) {
            Some(v) => v,
            None => {
                return Err(
                    AccountProcesserError::InvalidTransaction(
                        "Resolve would push the available balance out of range".to_string(),
                    ),
                );
            },
        };
        let new_held = match self.held.checked_sub(amount) {
            Some(v) => v,
            None => {
                return Err(
                    AccountProcesserError::InvalidTransaction(
                        "Resolve would push the held balance out of range".to_string(),
                    ),
                );
            },
        };
        self.open_disputes.remove(&tx_id);
        self.available = new_available;
        self.held = new_held;
        Ok(())
    }

    /// Close a dispute against the client: the disputed amount leaves the
    /// account and the account locks for good. An id with no open dispute is
    /// ignored.
    pub fn chargeback(&mut self, tx_id: u32) -> (r: Result<(), AccountProcesserError>)
        requires
            old(self).inv(),
        ensures
            final(self).inv(),
            final(self)@ == chargeback_step(old(self)@, tx_id),
            outcome_matches(r, chargeback_outcome(old(self)@, tx_id), old(self)@.client_id),
    {
        match self.check_lock() {
            Ok(()) => {},
            Err(e) => {
                return Err(e);
            },
        }
        let amount: i64 = match self.open_disputes.get(&tx_id) {
            Some(a) => *a,
            None => {
                return Ok(());
            },
        };
        let new_held = match self.held.checked_sub(amount) {
            Some(v) => v,
            None => {
                return Err(
                    AccountProcesserError::InvalidTransaction(
                        "Chargeback would push the held balance out of range".to_string(),
                    ),
                );
            },
        };
        let new_total = match self.total.checked_sub(amount) {
            Some(v) => v,
            None => {
                return Err(
                    AccountProcesserError::InvalidTransaction(
                        "Chargeback would push the total balance out of range".to_string(),
                    ),
                );
            },
        };
        self.open_disputes.remove(&tx_id);
        self.held = new_held;
        self.total = new_total;
        self.locked = true;
        Ok(())
    }

    /// The funds usable for withdrawal.
    pub fn get_available(&self) -> (r: i64)
        ensures
            r as int == self@.available,
    {
        self.available
    }

    /// The funds frozen pending dispute resolution.
    pub fn get_held(&self) -> (r: i64)
        ensures
            r as int == self@.held,
    {
        self.held
    }

    /// The total funds, available plus held.
    pub fn get_total(&self) -> (r: i64)
        ensures
            r as int == self@.total,
    {
        self.total
    }

    /// Whether a chargeback has locked this account.
    pub fn get_locked(&self) -> (r: bool)
        ensures
            r == self@.locked,
    {
        self.locked
    }

    /// The owning client's id.
    pub fn get_client_id(&self) -> (r: u16)
        ensures
            r == self@.client_id,
    {
        self.client_id
    }
}

} // verus!
