//! A minimal account-balance ledger.
//!
//! The ledger tracks a per-account balance and a global issuance total, and
//! exposes two state-transition operations: an unauthenticated mint and a
//! balance-checked transfer. Both operations validate fully before writing,
//! so a failing call leaves the stores untouched.

use vstd::prelude::*;

pub mod errors;
pub mod origin;
pub mod store;
pub mod pallet;
pub mod supply;
pub mod laws;

verus! {

/// Identifier of a ledger participant.
pub type AccountId = u64;

/// A non-negative amount held by an account; absence of an entry in the
/// balance store reads as zero.
pub type Balance = u128;

} // verus!
