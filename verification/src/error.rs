//! The errors that end an operation.
//!
//! Every error is final for the operation that met it: nothing is retried,
//! and the accounts are left as they were.

use vstd::prelude::*;

verus! {

/// A transfer that could not move the tokens.
#[derive(Clone, Copy, Debug, PartialEq, Eq, Structural)]
pub enum TransferError {
    /// The source account does not have enough funds to transfer.
    InsufficientFunds,
    /// Decimal provided does not match the mint's decimal value.
    InvalidDecimals,
    /// A balance would leave the range of `u64`.
    Overflow,
}

/// An identity that may not take part in the operation.
#[derive(Clone, Copy, Debug, PartialEq, Eq, Structural)]
pub enum IdendityError {
    /// The issuer already has an entry in the identity.
    IdendityAlreadyExists,
    /// The identity is not active.
    IdendityNotActive,
    /// The identity expired.
    IdendityExpired,
    /// The identity was recovered, so it is frozen.
    IdendityRecovered,
    /// The identity was already recovered.
    IdendityAlreadyRecovered,
    /// The issuer is not approved.
    IssuerNotApproved,
    /// No issuer of the identity is allow-listed, active and unexpired at
    /// once.
    InvalidIdendity,
}

/// A missing co-signature of the two-auth entity.
#[derive(Clone, Copy, Debug, PartialEq, Eq, Structural)]
pub enum TwoAuthError {
    /// The rules ask for the two-auth entity's co-signature on a transfer,
    /// and it was not given, or given by another signer.
    SecondaryAuthorizationRequired,
    /// A two-auth configuration is in place, and its entity did not co-sign
    /// the change.
    NotAuthorizedToReplacePolicy,
}

/// Any error of the authorization core.
#[derive(Clone, Copy, Debug, PartialEq, Eq, Structural)]
pub enum AuthError {
    Transfer(TransferError),
    Idendity(IdendityError),
    TwoAuth(TwoAuthError),
}

} // verus!
