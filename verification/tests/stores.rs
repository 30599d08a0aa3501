use currency_pallet::errors::LedgerError;
use currency_pallet::origin::{ensure_signed, Origin};
use currency_pallet::store::{BalanceStore, IssuanceCounter};

#[test]
fn balance_store_reads_zero_when_absent() {
    let store = BalanceStore::new();

    assert_eq!(store.get(7), 0);
    assert!(!store.contains(7));
}

#[test]
fn balance_store_set_then_get() {
    let mut store = BalanceStore::new();

    store.set(7, 42);

    assert_eq!(store.get(7), 42);
    assert!(store.contains(7));
    assert_eq!(store.get(8), 0);
}

#[test]
fn balance_store_distinguishes_zero_entry_from_absence() {
    let mut store = BalanceStore::new();

    store.set(7, 0);

    assert_eq!(store.get(7), 0);
    assert!(store.contains(7));
    assert!(!store.contains(8));
}

#[test]
fn balance_store_set_overwrites() {
    let mut store = BalanceStore::new();

    store.set(7, 42);
    store.set(7, 3);

    assert_eq!(store.get(7), 3);
}

#[test]
fn balance_store_mutate_applies_to_the_defaulted_read() {
    let mut store = BalanceStore::new();

    store.mutate(7, |b| b + 3);

    assert_eq!(store.get(7), 3);
    assert!(store.contains(7));

    store.mutate(7, |b| b * 2);

    assert_eq!(store.get(7), 6);
}

#[test]
fn issuance_counter_starts_at_zero() {
    let counter = IssuanceCounter::new();

    assert_eq!(counter.get(), 0);
}

#[test]
fn issuance_counter_set_then_get() {
    let mut counter = IssuanceCounter::new();

    counter.set(250);

    assert_eq!(counter.get(), 250);
}

#[test]
fn issuance_counter_mutate_applies_to_the_current_total() {
    let mut counter = IssuanceCounter::new();

    counter.mutate(|t| t + 40);

    assert_eq!(counter.get(), 40);
}

#[test]
fn ensure_signed_accepts_a_signed_origin() {
    assert_eq!(ensure_signed(Origin::Signed(9)), Ok(9));
}

#[test]
fn ensure_signed_rejects_an_unsigned_origin() {
    assert_eq!(ensure_signed(Origin::Unsigned), Err(LedgerError::AuthError));
}
