//! Domain errors for the identifier market. Every failure aborts the whole
//! operation; nothing is partially committed.

use vstd::prelude::*;

verus! {

/// Why a purchase or a drain was rejected.
#[derive(Clone, Copy, Debug, PartialEq, Eq, Structural)]
pub enum BonkError {
    /// The buyer's balance cannot cover a required payment leg.
    NotEnoughFunds,
    /// The supplied previous-owner account is not owned by the recorded owner.
    WrongSellerAccount,
    /// The supplied payment-token identity is not the configured one.
    WrongTokenMint,
    /// A supplied account fails basic token-account validation.
    NotATokenAccount,
    /// The buyer already owns the identifier.
    AlreadyOwner,
    /// An arithmetic step would exceed the integer range.
    Overflow,
    /// A drain was requested by a non-administrative caller.
    NotAuthorized,
    /// The token-destruction primitive rejected the requested amount.
    DestroyError,
}

} // verus!
