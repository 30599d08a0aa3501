//! The two persistent stores of the ledger: the keyed balance store and the
//! scalar issuance counter. Both are plain in-memory values injected into the
//! ledger, so operations are testable in isolation.

use vstd::prelude::*;
use std::collections::HashMap;
use crate::{AccountId, Balance};

verus! {

broadcast use vstd::std_specs::hash::group_hash_axioms;

/// The balance an account holds in a balance map: the stored entry, or zero
/// when no entry is present.
pub open spec fn balance_in(balances: Map<AccountId, Balance>, account: AccountId) -> Balance {
    if balances.contains_key(account) {
        balances[account]
    } else {
        0
    }
}

/// Mapping from account identifier to balance, with unique keys and no
/// meaningful iteration order. An absent entry reads as a balance of zero,
/// but absence is still observable through [`BalanceStore::contains`].
pub struct BalanceStore {
    entries: HashMap<AccountId, Balance>,
}

impl View for BalanceStore {
    type V = Map<AccountId, Balance>;

    closed spec fn view(&self) -> Map<AccountId, Balance> {
        self.entries@
    }
}

impl BalanceStore {
    /// An empty store: no account has an entry.
    pub fn new() -> (store: BalanceStore)
        ensures
            store@ == Map::<AccountId, Balance>::empty(),
    {
        BalanceStore { entries: HashMap::new() }
    }

    /// Defaulted read: the stored balance, or zero when the entry is absent.
    /// Never fails.
    pub fn get(&self, account: AccountId) -> (balance: Balance)
        ensures
            balance == balance_in(self@, account),
    {
        match self.entries.get(&account) {
            Some(balance) => *balance,
            None => 0,
        }
    }

    /// Presence check: whether the account has an entry at all, even an
    /// explicit zero one.
    pub fn contains(&self, account: AccountId) -> (present: bool)
        ensures
            present == self@.contains_key(account),
    {
        self.entries.contains_key(&account)
    }

    /// Reads the current balance (zero when the entry is absent), applies
    /// `f`, and writes the result back as the account's entry.
    pub fn mutate<F: FnOnce(Balance) -> Balance>(&mut self, account: AccountId, f: F)
        requires
            call_requires(f, (balance_in(old(self)@, account),)),
        ensures
            exists|written: Balance|
                #[trigger] call_ensures(f, (balance_in(old(self)@, account),), written)
                    && final(self)@ == old(self)@.insert(account, written),
    {
        let current = self.get(account);
        let written = f(current);
        self.set(account, written);
    }

    /// Only finitely many accounts ever hold an entry.
    pub proof fn lemma_dom_finite(&self)
        ensures
            self@.dom().finite(),
    {
    }

    /// Unconditionally overwrites (or inserts) the entry. Never fails.
    pub fn set(&mut self, account: AccountId, balance: Balance)
        ensures
            final(self)@ == old(self)@.insert(account, balance),
    {
        self.entries.insert(account, balance);
    }
}

/// The running total of all balance ever minted. Starts at zero and is grown
/// only by the mint operation.
pub struct IssuanceCounter {
    total: Balance,
}

impl View for IssuanceCounter {
    type V = Balance;

    closed spec fn view(&self) -> Balance {
        self.total
    }
}

impl IssuanceCounter {
    /// A fresh counter reading zero.
    pub fn new() -> (counter: IssuanceCounter)
        ensures
            counter@ == 0,
    {
        IssuanceCounter { total: 0 }
    }

    /// The current total.
    pub fn get(&self) -> (total: Balance)
        ensures
            total == self@,
    {
        self.total
    }

    /// Unconditionally overwrites the total.
    pub fn set(&mut self, total: Balance)
        ensures
            final(self)@ == total,
    {
        self.total = total;
    }

    /// Reads the current total, applies `f`, and writes the result back.
    pub fn mutate<F: FnOnce(Balance) -> Balance>(&mut self, f: F)
        requires
            call_requires(f, (old(self)@,)),
        ensures
            exists|written: Balance|
                #[trigger] call_ensures(f, (old(self)@,), written) && final(self)@ == written,
    {
        let current = self.get();
        let written = f(current);
        self.set(written);
    }
}

} // verus!
