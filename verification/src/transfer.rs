//! Transfers between wrapped token accounts.
//!
//! A transfer is decided as a whole. Every check comes before the first
//! change, and the rules of the source account are asked for their verdict
//! without moving their state; only a transfer that passed every check moves
//! the rules' counters and windows on, together with the balances. A transfer
//! that fails leaves both accounts as they were.

use crate::error::{AuthError, IdendityError, TransferError, TwoAuthError};
use crate::idendity::{check_idendities, identity_valid, Issuer};
use crate::key::Key;
use crate::two_auth_state::{
    all_after, check_second_signer, evaluate_two_auth_functions, second_signer_missing,
    PolicyState,
};
use crate::wrapped_account::{AccountState, WrappedTokenAccount};
use vstd::prelude::*;

verus! {

/// The error that stops a transfer, if there is one.
///
/// A transfer from an account to itself needs a valid sender and nothing
/// else. Between two accounts the checks run in this order: the funds of the
/// source, the sender's identity, the receiver's identity, the second signer,
/// the room left in the destination's balance.
pub open spec fn transfer_error(
    source_key: Key,
    source: AccountState,
    sender_issuers: Seq<Issuer>,
    destination_key: Key,
    destination: AccountState,
    receiver_issuers: Seq<Issuer>,
    allowed_issuers: Seq<Key>,
    two_auth_signer: Option<Key>,
    amount: u64,
    now: i64,
) -> Option<AuthError> {
    let self_transfer = source_key == destination_key;
    if !self_transfer && amount > source.amount {
        Some(AuthError::Transfer(TransferError::InsufficientFunds))
    } else if !identity_valid(sender_issuers, allowed_issuers, now) {
        Some(AuthError::Idendity(IdendityError::InvalidIdendity))
    } else if self_transfer {
        None
    } else if !identity_valid(receiver_issuers, allowed_issuers, now) {
        Some(AuthError::Idendity(IdendityError::InvalidIdendity))
    } else if second_signer_missing(
        source.two_auth,
        amount,
        now,
        destination_key,
        two_auth_signer,
    ) {
        Some(AuthError::TwoAuth(TwoAuthError::SecondaryAuthorizationRequired))
    } else if destination.amount + amount > u64::MAX {
        Some(AuthError::Transfer(TransferError::Overflow))
    } else {
        None
    }
}

/// The source account after an accepted transfer of `amount` to another
/// account at `now`: the amount has left, the time is noted, and each rule
/// has moved on.
pub open spec fn source_after(source: AccountState, amount: u64, now: i64) -> AccountState {
    AccountState {
        amount: (source.amount - amount) as u64,
        last_tx: now,
        two_auth: match source.two_auth {
            Some(parameters) => Some(
                PolicyState {
                    functions: all_after(parameters.functions, amount, now),
                    ..parameters
                },
            ),
            None => None,
        },
        ..source
    }
}

/// The destination account after an accepted transfer of `amount` from
/// another account.
pub open spec fn destination_after(destination: AccountState, amount: u64) -> AccountState {
    AccountState { amount: (destination.amount + amount) as u64, ..destination }
}

/// Moves `amount` from `source` to `destination` at `now`, if the identities
/// and the two-auth rules of the source allow it.
///
/// `sender_issuers` and `receiver_issuers` are the credentials of the two
/// owners, `allowed_issuers` the issuers that the wrapper accepts, and
/// `two_auth_signer` the second signer, where one signed. Where both keys
/// name one account, `source` and `destination` are two copies of it; such a
/// transfer changes neither, whatever the amount.
pub fn _transfer(
    source_key: &Key,
    source: &mut WrappedTokenAccount,
    sender_issuers: &Vec<Issuer>,
    destination_key: &Key,
    destination: &mut WrappedTokenAccount,
    receiver_issuers: &Vec<Issuer>,
    allowed_issuers: &Vec<Key>,
    two_auth_signer: Option<Key>,
    amount: u64,
    now: i64,
) -> (result: Result<(), AuthError>)
    ensures
        result == match transfer_error(
            *source_key,
            old(source)@,
            sender_issuers@,
            *destination_key,
            old(destination)@,
            receiver_issuers@,
            allowed_issuers@,
            two_auth_signer,
            amount,
            now,
        ) {
            Some(error) => Err(error),
            None => Ok::<(), AuthError>(()),
        },
        result is Err || *source_key == *destination_key ==> {
            &&& *final(source) == *old(source)
            &&& *final(destination) == *old(destination)
        },
        result is Ok && *source_key != *destination_key ==> {
            &&& final(source)@ == source_after(old(source)@, amount, now)
            &&& final(destination)@ == destination_after(old(destination)@, amount)
            &&& final(source).amount + final(destination).amount == old(source).amount + old(
                destination,
            ).amount
        },
        *source_key == *destination_key && identity_valid(sender_issuers@, allowed_issuers@, now)
            ==> result is Ok,
        *source_key != *destination_key && amount > old(source).amount ==> result == Err::<
            (),
            AuthError,
        >(AuthError::Transfer(TransferError::InsufficientFunds)),
{
    let self_transfer = *source_key == *destination_key;

    if !self_transfer && amount > source.amount {
        return Err(AuthError::Transfer(TransferError::InsufficientFunds));
    }
    if let Err(error) = check_idendities(sender_issuers, allowed_issuers, now) {
        return Err(AuthError::Idendity(error));
    }
    if self_transfer {
        // Both records stand for one account: nothing is to move
        return Ok(());
    }
    if let Err(error) = check_idendities(receiver_issuers, allowed_issuers, now) {
        return Err(AuthError::Idendity(error));
    }
    if let Err(error) = check_second_signer(
        &source.two_auth,
        &two_auth_signer,
        amount,
        now,
        destination_key,
    ) {
        return Err(AuthError::TwoAuth(error));
    }
    let source_amount = match source.amount.checked_sub(amount) {
        Some(left) => left,
        None => {
            return Err(AuthError::Transfer(TransferError::Overflow));
        },
    };
    let destination_amount = match destination.amount.checked_add(amount) {
        Some(grown) => grown,
        None => {
            return Err(AuthError::Transfer(TransferError::Overflow));
        },
    };

    // Every check has passed: from here on the accounts change.
    if let Some(parameters) = &mut source.two_auth {
        evaluate_two_auth_functions(amount, &mut parameters.functions, now, destination_key);
    }
    source.amount = source_amount;
    destination.amount = destination_amount;
    source.last_tx = now;

    Ok(())
}

} // verus!
