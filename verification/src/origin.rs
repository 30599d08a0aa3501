//! The caller context presented to an operation, and its authentication.

use vstd::prelude::*;
use crate::AccountId;
use crate::errors::LedgerError;

verus! {

/// The unauthenticated caller context handed to an operation by the
/// dispatcher. It names an account only after successful authentication.
#[derive(Clone, Copy, Debug, PartialEq, Eq, Structural)]
pub enum Origin {
    /// A call carrying the signature of the given account.
    Signed(AccountId),
    /// A call with no signature behind it.
    Unsigned,
}

/// Authenticates an origin: a signed origin yields its account identifier,
/// anything else fails with `AuthError`.
pub fn ensure_signed(origin: Origin) -> (r: Result<AccountId, LedgerError>)
    ensures
        r == match origin {
            Origin::Signed(account) => Ok::<AccountId, LedgerError>(account),
            Origin::Unsigned => Err::<AccountId, LedgerError>(LedgerError::AuthError),
        },
{
    match origin {
        Origin::Signed(account) => Ok(account),
        Origin::Unsigned => Err(LedgerError::AuthError),
    }
}

} // verus!
