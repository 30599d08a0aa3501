//! The ledger component: it owns the two stores and exposes the two
//! state-transition operations, `mint_unsafe` and `transfer`.

use vstd::prelude::*;
use crate::{AccountId, Balance};
use crate::errors::LedgerError;
use crate::origin::{Origin, ensure_signed};
use crate::store::{BalanceStore, IssuanceCounter, balance_in};

verus! {

/// The ledger state as the contracts see it: the balance map and the
/// issuance total.
pub ghost struct StoreView {
    pub balances: Map<AccountId, Balance>,
    pub issuance: Balance,
}

/// The error a transfer returns on the given pre-state, or `None` when the
/// transfer succeeds. Checks run in this order: the sender must have an
/// entry, the amount must not exceed the sender's balance, and crediting the
/// destination must not overflow.
pub open spec fn transfer_error(
    balances: Map<AccountId, Balance>,
    caller: AccountId,
    dest: AccountId,
    amount: Balance,
) -> Option<LedgerError> {
    if !balances.contains_key(caller) {
        Some(LedgerError::NonExistentAccount)
    } else if amount > balances[caller] {
        Some(LedgerError::InsufficientBalance)
    } else if balance_in(balances, dest) + amount > u128::MAX {
        Some(LedgerError::ArithmeticOverflow)
    } else {
        None
    }
}

/// The balance map after a successful transfer: the destination is credited
/// first, then the sender's entry is overwritten with the remainder. When
/// sender and destination coincide, the remainder write is the one that
/// lands.
pub open spec fn transfer_updated(
    balances: Map<AccountId, Balance>,
    caller: AccountId,
    dest: AccountId,
    amount: Balance,
) -> Map<AccountId, Balance> {
    balances
        .insert(dest, (balance_in(balances, dest) + amount) as Balance)
        .insert(caller, (balances[caller] - amount) as Balance)
}

/// The error a mint returns on the given pre-state, or `None` when the mint
/// succeeds. The guard is on the invoking account, not the destination: any
/// authenticated caller without a balance entry of its own may mint.
pub open spec fn mint_error(
    balances: Map<AccountId, Balance>,
    issuance: Balance,
    caller: AccountId,
    dest: AccountId,
    amount: Balance,
) -> Option<LedgerError> {
    if balances.contains_key(caller) {
        Some(LedgerError::CallerAlreadyFunded)
    } else if balance_in(balances, dest) + amount > u128::MAX {
        Some(LedgerError::ArithmeticOverflow)
    } else if issuance + amount > u128::MAX {
        Some(LedgerError::ArithmeticOverflow)
    } else {
        None
    }
}

/// The balance map after a successful mint: the destination is credited with
/// the minted amount.
pub open spec fn mint_updated(
    balances: Map<AccountId, Balance>,
    dest: AccountId,
    amount: Balance,
) -> Map<AccountId, Balance> {
    balances.insert(dest, (balance_in(balances, dest) + amount) as Balance)
}

/// The ledger. It exclusively owns the balance store and the issuance
/// counter; they are mutated only by the operations below.
pub struct Pallet {
    balances: BalanceStore,
    issuance: IssuanceCounter,
}

impl View for Pallet {
    type V = StoreView;

    closed spec fn view(&self) -> StoreView {
        StoreView { balances: self.balances@, issuance: self.issuance@ }
    }
}

impl Pallet {
    /// The genesis state: no balance entries, zero issuance.
    pub fn new() -> (pallet: Pallet)
        ensures
            pallet@.balances == Map::<AccountId, Balance>::empty(),
            pallet@.issuance == 0,
    {
        Pallet { balances: BalanceStore::new(), issuance: IssuanceCounter::new() }
    }

    /// A ledger over injected stores, so operations are testable in
    /// isolation from any chosen state.
    pub fn from_parts(balances: BalanceStore, issuance: IssuanceCounter) -> (pallet: Pallet)
        ensures
            pallet@.balances == balances@,
            pallet@.issuance == issuance@,
    {
        Pallet { balances, issuance }
    }

    /// The balance of an account, zero when it has no entry.
    pub fn balance_of(&self, account: AccountId) -> (balance: Balance)
        ensures
            balance == balance_in(self@.balances, account),
    {
        self.balances.get(account)
    }

    /// Whether an account has a balance entry, even an explicit zero one.
    pub fn contains_account(&self, account: AccountId) -> (present: bool)
        ensures
            present == self@.balances.contains_key(account),
    {
        self.balances.contains(account)
    }

    /// Only finitely many accounts ever hold a balance entry.
    pub proof fn lemma_balances_dom_finite(&self)
        ensures
            self@.balances.dom().finite(),
    {
        self.balances.lemma_dom_finite();
    }

    /// The total the ledger believes it has minted.
    pub fn total_issuance(&self) -> (total: Balance)
        ensures
            total == self@.issuance,
    {
        self.issuance.get()
    }

    /// An unauthenticated mint: any signed caller without a balance entry of
    /// its own may credit any destination. On success the destination gains
    /// exactly `amount` and the issuance total grows by exactly `amount`; on
    /// any failure the stores are untouched.
    pub fn mint_unsafe(&mut self, origin: Origin, dest: AccountId, amount: Balance) -> (r: Result<
        (),
        LedgerError,
    >)
        ensures
            r is Err ==> *final(self) == *old(self),
            origin is Unsigned ==> r == Err::<(), LedgerError>(LedgerError::AuthError),
            origin matches Origin::Signed(caller) ==> (match mint_error(
                old(self)@.balances,
                old(self)@.issuance,
                caller,
                dest,
                amount,
            ) {
                Some(e) => r == Err::<(), LedgerError>(e),
                None => {
                    &&& r == Ok::<(), LedgerError>(())
                    &&& final(self)@.balances == mint_updated(old(self)@.balances, dest, amount)
                    &&& final(self)@.issuance == old(self)@.issuance + amount
                },
            }),
            r is Ok ==> balance_in(final(self)@.balances, dest) == balance_in(
                old(self)@.balances,
                dest,
            ) + amount,
    {
        let caller = match ensure_signed(origin) {
            Ok(account) => account,
            Err(e) => {
                return Err(e);
            },
        };
        if self.balances.contains(caller) {
            return Err(LedgerError::CallerAlreadyFunded);
        }
        let credited = match self.balances.get(dest).checked_add(amount) {
            Some(credited) => credited,
            None => {
                return Err(LedgerError::ArithmeticOverflow);
            },
        };
        let grown = match self.issuance.get().checked_add(amount) {
            Some(grown) => grown,
            None => {
                return Err(LedgerError::ArithmeticOverflow);
            },
        };
        self.balances.set(dest, credited);
        self.issuance.set(grown);
        Ok(())
    }

    /// Moves `amount` from the authenticated caller to `dest`. The caller
    /// must already have a balance entry and enough balance; both the debit
    /// and the credit are checked, and on any failure the stores are
    /// untouched. Between two distinct accounts, success leaves the sum of
    /// their balances unchanged.
    pub fn transfer(&mut self, origin: Origin, dest: AccountId, amount: Balance) -> (r: Result<
        (),
        LedgerError,
    >)
        ensures
            r is Err ==> *final(self) == *old(self),
            origin is Unsigned ==> r == Err::<(), LedgerError>(LedgerError::AuthError),
            origin matches Origin::Signed(caller) ==> (match transfer_error(
                old(self)@.balances,
                caller,
                dest,
                amount,
            ) {
                Some(e) => r == Err::<(), LedgerError>(e),
                None => {
                    &&& r == Ok::<(), LedgerError>(())
                    &&& final(self)@.balances == transfer_updated(
                        old(self)@.balances,
                        caller,
                        dest,
                        amount,
                    )
                    &&& final(self)@.issuance == old(self)@.issuance
                },
            }),
            origin matches Origin::Signed(caller) ==> ((r is Ok && caller != dest) ==> balance_in(
                final(self)@.balances,
                caller,
            ) + balance_in(final(self)@.balances, dest) == balance_in(old(self)@.balances, caller)
                + balance_in(old(self)@.balances, dest)),
    {
        let caller = match ensure_signed(origin) {
            Ok(account) => account,
            Err(e) => {
                return Err(e);
            },
        };
        if !self.balances.contains(caller) {
            return Err(LedgerError::NonExistentAccount);
        }
        let sender_balance = self.balances.get(caller);
        let remainder = match sender_balance.checked_sub(amount) {
            Some(remainder) => remainder,
            None => {
                return Err(LedgerError::InsufficientBalance);
            },
        };
        let credited = match self.balances.get(dest).checked_add(amount) {
            Some(credited) => credited,
            None => {
                return Err(LedgerError::ArithmeticOverflow);
            },
        };
        self.balances.set(dest, credited);
        self.balances.set(caller, remainder);
        Ok(())
    }
}

} // verus!
