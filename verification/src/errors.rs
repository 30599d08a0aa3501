//! The typed failures of the ledger operations.

use vstd::prelude::*;

verus! {

/// Every way a ledger operation can fail. All errors are returned to the
/// caller as typed results; a failing call commits no writes.
#[derive(Clone, Copy, Debug, PartialEq, Eq, Structural)]
pub enum LedgerError {
    /// The origin could not be authenticated as a signed account.
    AuthError,
    /// The account invoking the mint already holds a balance entry.
    CallerAlreadyFunded,
    /// The transfer sender has no balance entry at all.
    NonExistentAccount,
    /// The transfer amount exceeds the sender's balance.
    InsufficientBalance,
    /// A checked addition would exceed the balance representation.
    ArithmeticOverflow,
}

} // verus!
