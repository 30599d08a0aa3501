//! Laws of the ledger operations, stated over the same spec functions that
//! the operations' contracts use.

use vstd::prelude::*;
use crate::{AccountId, Balance};
use crate::errors::LedgerError;
use crate::pallet::{mint_error, mint_updated, transfer_error, transfer_updated, StoreView};
use crate::store::balance_in;
use crate::supply::{lemma_total_after_set, total_in};

verus! {

/// The intended ledger invariant: the balances stored for all accounts sum
/// to the issuance total.
pub open spec fn balanced(v: StoreView) -> bool {
    total_in(v.balances) == v.issuance
}

/// The genesis state is balanced: no entries, zero issuance.
pub proof fn lemma_genesis_balanced()
    ensures
        balanced((StoreView { balances: Map::empty(), issuance: 0 })),
{
    assert(Map::<AccountId, Balance>::empty().dom() =~= Set::empty());
    crate::supply::lemma_sum_over_empty(Map::empty());
}

/// Conservation: a successful transfer between two distinct accounts moves
/// value without creating or destroying it; the sum of the two balances is
/// the same before and after.
pub proof fn lemma_transfer_conservation(
    balances: Map<AccountId, Balance>,
    caller: AccountId,
    dest: AccountId,
    amount: Balance,
)
    requires
        caller != dest,
        transfer_error(balances, caller, dest, amount) is None,
    ensures
        balance_in(transfer_updated(balances, caller, dest, amount), caller)
            + balance_in(transfer_updated(balances, caller, dest, amount), dest)
            == balance_in(balances, caller) + balance_in(balances, dest),
{
}

/// Insufficient-balance boundary, failing side: a transfer of one more than
/// the sender's balance always fails with `InsufficientBalance`.
pub proof fn lemma_transfer_one_over_balance_fails(
    balances: Map<AccountId, Balance>,
    caller: AccountId,
    dest: AccountId,
    amount: Balance,
)
    requires
        balances.contains_key(caller),
        amount == balances[caller] + 1,
    ensures
        transfer_error(balances, caller, dest, amount) == Some(LedgerError::InsufficientBalance),
{
}

/// Insufficient-balance boundary, succeeding side: a transfer of exactly the
/// sender's balance succeeds and leaves the sender at zero, provided
/// crediting the destination does not overflow.
pub proof fn lemma_transfer_whole_balance_succeeds(
    balances: Map<AccountId, Balance>,
    caller: AccountId,
    dest: AccountId,
    amount: Balance,
)
    requires
        balances.contains_key(caller),
        amount == balances[caller],
        balance_in(balances, dest) + amount <= u128::MAX,
    ensures
        transfer_error(balances, caller, dest, amount) is None,
        balance_in(transfer_updated(balances, caller, dest, amount), caller) == 0,
{
}

/// A successful mint grows the stored total by exactly the minted amount, so
/// it preserves the balances-sum-to-issuance invariant: it is the sole
/// operation that grows both sides together.
pub proof fn lemma_mint_preserves_balance_invariant(
    v: StoreView,
    caller: AccountId,
    dest: AccountId,
    amount: Balance,
)
    requires
        v.balances.dom().finite(),
        mint_error(v.balances, v.issuance, caller, dest, amount) is None,
    ensures
        total_in(mint_updated(v.balances, dest, amount)) == total_in(v.balances) + amount,
        balanced(v) ==> balanced(
            (StoreView {
                balances: mint_updated(v.balances, dest, amount),
                issuance: (v.issuance + amount) as Balance,
            }),
        ),
{
    lemma_total_after_set(v.balances, dest, (balance_in(v.balances, dest) + amount) as Balance);
}

/// A successful transfer between two distinct accounts leaves the stored
/// total untouched, so it preserves the balances-sum-to-issuance invariant.
/// A self-transfer is the one exception: its remainder write discards the
/// credit, and the stored total drops by the transferred amount.
pub proof fn lemma_transfer_preserves_balance_invariant(
    v: StoreView,
    caller: AccountId,
    dest: AccountId,
    amount: Balance,
)
    requires
        v.balances.dom().finite(),
        caller != dest,
        transfer_error(v.balances, caller, dest, amount) is None,
    ensures
        total_in(transfer_updated(v.balances, caller, dest, amount)) == total_in(v.balances),
        balanced(v) ==> balanced(
            (StoreView {
                balances: transfer_updated(v.balances, caller, dest, amount),
                issuance: v.issuance,
            }),
        ),
{
    let credited = (balance_in(v.balances, dest) + amount) as Balance;
    let once = v.balances.insert(dest, credited);
    lemma_total_after_set(v.balances, dest, credited);
    lemma_total_after_set(once, caller, (v.balances[caller] - amount) as Balance);
}

} // verus!
