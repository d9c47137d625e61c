//! The native-currency ledger: spendable balances, moved atomically.

use std::collections::HashMap;
use vstd::prelude::*;

use crate::errors::ErrorCode;

verus! {

broadcast use vstd::std_specs::hash::group_hash_axioms;

/// The spendable amount of an account: an account with no entry holds zero.
pub open spec fn balance_in(m: Map<u64, u64>, account: u64) -> u64 {
    if m.contains_key(account) {
        m[account]
    } else {
        0
    }
}

/// Whether moving `amount` from `from` to `to` can commit: the source must
/// hold at least `amount`, and the destination must not overflow. A move
/// from an account to itself changes nothing and can never overflow.
pub open spec fn transfer_ok(m: Map<u64, u64>, from: u64, to: u64, amount: u64) -> bool {
    &&& balance_in(m, from) >= amount
    &&& (from != to ==> balance_in(m, to) + amount <= u64::MAX)
}

/// The balances after moving `amount` from `from` to `to`.
pub open spec fn transfer_applied(m: Map<u64, u64>, from: u64, to: u64, amount: u64) -> Map<
    u64,
    u64,
> {
    if from == to {
        m
    } else {
        m.insert(from, (balance_in(m, from) - amount) as u64).insert(
            to,
            (balance_in(m, to) + amount) as u64,
        )
    }
}

/// Fungible balances keyed by account identifier. Every mutation commits as
/// one all-or-nothing unit: a rejected transfer leaves every balance as it
/// was.
pub struct FundsLedger {
    accounts: HashMap<u64, u64>,
}

impl View for FundsLedger {
    type V = Map<u64, u64>;

    closed spec fn view(&self) -> Map<u64, u64> {
        self.accounts@
    }
}

impl FundsLedger {
    /// An empty ledger: every account holds zero.
    pub fn new() -> (l: FundsLedger)
        ensures
            l@ == Map::<u64, u64>::empty(),
    {
        FundsLedger { accounts: HashMap::new() }
    }

    /// The current spendable balance of `account`.
    pub fn balance_of(&self, account: u64) -> (r: u64)
        ensures
            r == balance_in(self@, account),
    {
        match self.accounts.get(&account) {
            Some(v) => *v,
            None => 0,
        }
    }

    /// Overwrite the balance of `account`. This is the bootstrapping entry
    /// point for funding accounts; settlement itself only ever transfers.
    pub fn set_balance(&mut self, account: u64, amount: u64)
        ensures
            final(self)@ == old(self)@.insert(account, amount),
    {
        self.accounts.insert(account, amount);
    }

    /// Move `amount` from `from` to `to`, atomically: on any rejection the
    /// ledger is unchanged. Rejections are underfunding of `from` and
    /// overflow of `to`.
    pub fn transfer_funds(&mut self, from: u64, to: u64, amount: u64) -> (r: Result<
        (),
        ErrorCode,
    >)
        ensures
            transfer_ok(old(self)@, from, to, amount) ==> {
                &&& r == Ok::<(), ErrorCode>(())
                &&& final(self)@ == transfer_applied(old(self)@, from, to, amount)
            },
            !transfer_ok(old(self)@, from, to, amount) ==> {
                &&& r == Err::<(), ErrorCode>(ErrorCode::TransferFailed)
                &&& final(self)@ == old(self)@
            },
    {
        let from_balance = self.balance_of(from);
        if from_balance < amount {
            return Err(ErrorCode::TransferFailed);
        }
        if from == to {
            return Ok(());
        }
        let to_balance = self.balance_of(to);
        if to_balance > u64::MAX - amount {
            return Err(ErrorCode::TransferFailed);
        }
        self.accounts.insert(from, from_balance - amount);
        self.accounts.insert(to, to_balance + amount);
        Ok(())
    }
}

} // verus!
