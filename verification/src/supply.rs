//! The total supply held in a balance map, and how single-entry writes move
//! it. This is the ground for the ledger invariant that the stored balances
//! sum to the issuance total.

use vstd::prelude::*;
use vstd::set::fold::{is_fun_commutative, lemma_fold_empty, lemma_fold_insert};
use crate::{AccountId, Balance};
use crate::store::balance_in;

verus! {

/// One step of the supply sum: add the balance the map holds for one more
/// account.
pub open spec fn sum_step(balances: Map<AccountId, Balance>) -> spec_fn(int, AccountId) -> int {
    |acc: int, account: AccountId| acc + balance_in(balances, account)
}

/// The sum of the balances that `balances` holds for the accounts in `keys`.
pub open spec fn sum_over(keys: Set<AccountId>, balances: Map<AccountId, Balance>) -> int {
    keys.fold(0int, sum_step(balances))
}

/// The total supply stored in a balance map: the sum of all its entries.
pub open spec fn total_in(balances: Map<AccountId, Balance>) -> int {
    sum_over(balances.dom(), balances)
}

proof fn lemma_sum_step_commutative(balances: Map<AccountId, Balance>)
    ensures
        is_fun_commutative(sum_step(balances)),
{
}

/// Summing over no accounts gives zero.
pub proof fn lemma_sum_over_empty(balances: Map<AccountId, Balance>)
    ensures
        sum_over(Set::empty(), balances) == 0,
{
    lemma_fold_empty(0int, sum_step(balances));
}

/// Adding one more account to the summed set adds that account's balance.
pub proof fn lemma_sum_over_insert(
    keys: Set<AccountId>,
    balances: Map<AccountId, Balance>,
    account: AccountId,
)
    requires
        keys.finite(),
        !keys.contains(account),
    ensures
        sum_over(keys.insert(account), balances) == sum_over(keys, balances) + balance_in(
            balances,
            account,
        ),
{
    lemma_sum_step_commutative(balances);
    lemma_fold_insert(keys, 0int, sum_step(balances), account);
}

/// Two maps that agree on every summed account sum to the same value.
pub proof fn lemma_sum_over_congruent(
    keys: Set<AccountId>,
    balances1: Map<AccountId, Balance>,
    balances2: Map<AccountId, Balance>,
)
    requires
        keys.finite(),
        forall|account: AccountId| keys.contains(account) ==> balance_in(balances1, account)
            == balance_in(balances2, account),
    ensures
        sum_over(keys, balances1) == sum_over(keys, balances2),
    decreases keys.len(),
{
    if keys.len() == 0 {
        keys.lemma_len0_is_empty();
        lemma_sum_over_empty(balances1);
        lemma_sum_over_empty(balances2);
    } else {
        if !(exists|account: AccountId| keys.contains(account)) {
            assert(keys =~= Set::empty());
        }
        let account = keys.choose();
        let rest = keys.remove(account);
        lemma_sum_over_congruent(rest, balances1, balances2);
        lemma_sum_over_insert(rest, balances1, account);
        lemma_sum_over_insert(rest, balances2, account);
        assert(rest.insert(account) =~= keys);
    }
}

/// Writing one entry moves the total by the difference between the new value
/// and whatever the account held before, whether or not it had an entry.
pub proof fn lemma_total_after_set(
    balances: Map<AccountId, Balance>,
    account: AccountId,
    value: Balance,
)
    requires
        balances.dom().finite(),
    ensures
        total_in(balances.insert(account, value)) == total_in(balances) - balance_in(
            balances,
            account,
        ) + value,
{
    let written = balances.insert(account, value);
    if balances.dom().contains(account) {
        let rest = balances.dom().remove(account);
        lemma_sum_over_congruent(rest, balances, written);
        lemma_sum_over_insert(rest, balances, account);
        lemma_sum_over_insert(rest, written, account);
        assert(rest.insert(account) =~= balances.dom());
        assert(written.dom() =~= balances.dom());
    } else {
        lemma_sum_over_congruent(balances.dom(), balances, written);
        lemma_sum_over_insert(balances.dom(), written, account);
        assert(written.dom() =~= balances.dom().insert(account));
    }
}

} // verus!
