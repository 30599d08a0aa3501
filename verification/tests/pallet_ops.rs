use currency_pallet::errors::LedgerError;
use currency_pallet::origin::Origin;
use currency_pallet::pallet::Pallet;
use currency_pallet::store::{BalanceStore, IssuanceCounter};

#[test]
fn mint_unsafe_works() {
    let mut pallet = Pallet::new();

    let _ = pallet.mint_unsafe(Origin::Signed(1), 50, 100);

    assert!(pallet.contains_account(50));
    assert_eq!(pallet.balance_of(50), 100);
}

#[test]
fn mint_credits_dest_and_issuance() {
    let mut pallet = Pallet::new();

    let r = pallet.mint_unsafe(Origin::Signed(1), 50, 100);

    assert_eq!(r, Ok(()));
    assert_eq!(pallet.balance_of(50), 100);
    assert_eq!(pallet.total_issuance(), 100);
}

#[test]
fn mint_adds_to_an_existing_destination_balance() {
    let mut pallet = Pallet::new();
    assert_eq!(pallet.mint_unsafe(Origin::Signed(1), 5, 10), Ok(()));

    let r = pallet.mint_unsafe(Origin::Signed(2), 5, 7);

    assert_eq!(r, Ok(()));
    assert_eq!(pallet.balance_of(5), 17);
    assert_eq!(pallet.total_issuance(), 17);
}

#[test]
fn transfer_moves_value() {
    let mut pallet = Pallet::new();
    assert_eq!(pallet.mint_unsafe(Origin::Signed(1), 50, 100), Ok(()));

    let r = pallet.transfer(Origin::Signed(50), 60, 40);

    assert_eq!(r, Ok(()));
    assert_eq!(pallet.balance_of(50), 60);
    assert_eq!(pallet.balance_of(60), 40);
    assert_eq!(pallet.total_issuance(), 100);
}

#[test]
fn transfer_conserves_the_sum_of_both_balances() {
    let mut pallet = Pallet::new();
    assert_eq!(pallet.mint_unsafe(Origin::Signed(1), 7, 25), Ok(()));
    assert_eq!(pallet.mint_unsafe(Origin::Signed(2), 8, 5), Ok(()));
    let before = pallet.balance_of(7) + pallet.balance_of(8);

    assert_eq!(pallet.transfer(Origin::Signed(7), 8, 13), Ok(()));

    assert_eq!(pallet.balance_of(7) + pallet.balance_of(8), before);
}

#[test]
fn transfer_from_missing_account_fails() {
    let mut pallet = Pallet::new();
    assert_eq!(pallet.mint_unsafe(Origin::Signed(1), 1, 10), Ok(()));

    let r = pallet.transfer(Origin::Signed(99), 1, 1);

    assert_eq!(r, Err(LedgerError::NonExistentAccount));
    assert!(!pallet.contains_account(99));
    assert_eq!(pallet.balance_of(1), 10);
    assert_eq!(pallet.total_issuance(), 10);
}

#[test]
fn transfer_insufficient_balance_fails() {
    let mut pallet = Pallet::new();
    assert_eq!(pallet.mint_unsafe(Origin::Signed(1), 5, 10), Ok(()));

    let r = pallet.transfer(Origin::Signed(5), 6, 20);

    assert_eq!(r, Err(LedgerError::InsufficientBalance));
    assert_eq!(pallet.balance_of(5), 10);
    assert_eq!(pallet.balance_of(6), 0);
}

#[test]
fn transfer_one_over_balance_fails() {
    let mut pallet = Pallet::new();
    assert_eq!(pallet.mint_unsafe(Origin::Signed(1), 5, 10), Ok(()));

    let r = pallet.transfer(Origin::Signed(5), 6, 11);

    assert_eq!(r, Err(LedgerError::InsufficientBalance));
    assert_eq!(pallet.balance_of(5), 10);
}

#[test]
fn transfer_whole_balance_leaves_explicit_zero_entry() {
    let mut pallet = Pallet::new();
    assert_eq!(pallet.mint_unsafe(Origin::Signed(1), 5, 10), Ok(()));

    let r = pallet.transfer(Origin::Signed(5), 6, 10);

    assert_eq!(r, Ok(()));
    assert_eq!(pallet.balance_of(5), 0);
    assert!(pallet.contains_account(5));
    assert_eq!(pallet.balance_of(6), 10);
}

#[test]
fn second_mint_by_funded_caller_fails() {
    let mut pallet = Pallet::new();
    assert_eq!(pallet.mint_unsafe(Origin::Signed(1), 1, 1), Ok(()));

    let r = pallet.mint_unsafe(Origin::Signed(1), 2, 1);

    assert_eq!(r, Err(LedgerError::CallerAlreadyFunded));
    assert!(!pallet.contains_account(2));
    assert_eq!(pallet.balance_of(1), 1);
    assert_eq!(pallet.total_issuance(), 1);
}

#[test]
fn unsigned_origin_fails_both_operations() {
    let mut pallet = Pallet::new();
    assert_eq!(pallet.mint_unsafe(Origin::Signed(1), 5, 10), Ok(()));

    assert_eq!(pallet.mint_unsafe(Origin::Unsigned, 6, 1), Err(LedgerError::AuthError));
    assert_eq!(pallet.transfer(Origin::Unsigned, 6, 1), Err(LedgerError::AuthError));
    assert_eq!(pallet.balance_of(5), 10);
    assert_eq!(pallet.balance_of(6), 0);
    assert_eq!(pallet.total_issuance(), 10);
}

#[test]
fn mint_overflowing_dest_balance_fails() {
    let mut pallet = Pallet::new();
    assert_eq!(pallet.mint_unsafe(Origin::Signed(1), 2, u128::MAX), Ok(()));

    let r = pallet.mint_unsafe(Origin::Signed(3), 2, 1);

    assert_eq!(r, Err(LedgerError::ArithmeticOverflow));
    assert_eq!(pallet.balance_of(2), u128::MAX);
    assert_eq!(pallet.total_issuance(), u128::MAX);
}

#[test]
fn mint_overflowing_issuance_fails() {
    let mut pallet = Pallet::new();
    assert_eq!(pallet.mint_unsafe(Origin::Signed(1), 2, u128::MAX), Ok(()));

    let r = pallet.mint_unsafe(Origin::Signed(3), 4, 1);

    assert_eq!(r, Err(LedgerError::ArithmeticOverflow));
    assert!(!pallet.contains_account(4));
    assert_eq!(pallet.total_issuance(), u128::MAX);
}

#[test]
fn transfer_overflowing_dest_balance_fails() {
    let mut balances = BalanceStore::new();
    balances.set(1, 5);
    balances.set(2, u128::MAX);
    let mut issuance = IssuanceCounter::new();
    issuance.set(u128::MAX);
    let mut pallet = Pallet::from_parts(balances, issuance);

    let r = pallet.transfer(Origin::Signed(1), 2, 1);

    assert_eq!(r, Err(LedgerError::ArithmeticOverflow));
    assert_eq!(pallet.balance_of(1), 5);
    assert_eq!(pallet.balance_of(2), u128::MAX);
}

#[test]
fn self_transfer_overwrites_with_the_remainder() {
    let mut pallet = Pallet::new();
    assert_eq!(pallet.mint_unsafe(Origin::Signed(1), 5, 100), Ok(()));

    let r = pallet.transfer(Origin::Signed(5), 5, 30);

    assert_eq!(r, Ok(()));
    assert_eq!(pallet.balance_of(5), 70);
}
