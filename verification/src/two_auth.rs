//! Setting, replacing and removing the two-auth configuration of an account.
//!
//! The owner alone cannot weaken the protection of an account: once a
//! configuration is in place, every change of it needs the co-signature of
//! the two-auth entity that the configuration names.

use crate::error::{AuthError, IdendityError, TwoAuthError};
use crate::idendity::{check_idendity_not_recovered, IdAccount};
use crate::key::Key;
use crate::two_auth_state::{
    any_requires, rule_states, second_signer_missing, PolicyState, TwoAuthFunction,
    TwoAuthParameters,
};
use crate::wrapped_account::{AccountState, WrappedTokenAccount};
use vstd::prelude::*;

verus! {

/// Whether `old_two_auth_entity` may change the configuration `current`:
/// where there is one, the signer has to be its two-auth entity; where there
/// is none, nobody has to co-sign.
pub open spec fn replacement_authorized(
    current: Option<PolicyState>,
    old_two_auth_entity: Option<Key>,
) -> bool {
    current matches Some(parameters) ==> old_two_auth_entity == Some(parameters.two_auth_entity)
}

/// The error that stops a change of the configuration, if there is one: a
/// recovered identity is looked at first, then the co-signature.
pub open spec fn replacement_error(
    recovered_address: Option<Key>,
    current: Option<PolicyState>,
    old_two_auth_entity: Option<Key>,
) -> Option<AuthError> {
    if recovered_address is Some {
        Some(AuthError::Idendity(IdendityError::IdendityRecovered))
    } else if !replacement_authorized(current, old_two_auth_entity) {
        Some(AuthError::TwoAuth(TwoAuthError::NotAuthorizedToReplacePolicy))
    } else {
        None
    }
}

/// Fails with `NotAuthorizedToReplacePolicy` where the account has a
/// configuration and `old_two_auth_entity` is absent or is not the two-auth
/// entity of that configuration.
pub fn check_authorization_old_two_auth_entity(
    old_two_auth_entity: &Option<Key>,
    w_token_account: &WrappedTokenAccount,
) -> (result: Result<(), TwoAuthError>)
    ensures
        result == if replacement_authorized(w_token_account@.two_auth, *old_two_auth_entity) {
            Ok::<(), TwoAuthError>(())
        } else {
            Err(TwoAuthError::NotAuthorizedToReplacePolicy)
        },
{
    if let Some(two_auth_parameters) = &w_token_account.two_auth {
        match old_two_auth_entity {
            Some(old_auth_entity) => {
                if two_auth_parameters.two_auth_entity != *old_auth_entity {
                    return Err(TwoAuthError::NotAuthorizedToReplacePolicy);
                }
            },
            None => {
                return Err(TwoAuthError::NotAuthorizedToReplacePolicy);
            },
        }
    }
    Ok(())
}

/// Gives the account the configuration made of `functions`,
/// `two_auth_entity` and `allowed_issuers`, in place of the one it has, if
/// it has one.
///
/// Fails, and changes nothing, where the owner's identity was recovered, and
/// where the account has a configuration whose two-auth entity did not
/// co-sign as `old_two_auth_entity`.
pub fn _update_two_auth(
    idendity: &IdAccount,
    w_token_account: &mut WrappedTokenAccount,
    functions: Vec<TwoAuthFunction>,
    allowed_issuers: Vec<Key>,
    two_auth_entity: Key,
    old_two_auth_entity: Option<Key>,
) -> (result: Result<(), AuthError>)
    ensures
        result == match replacement_error(
            idendity.recovered_address,
            old(w_token_account)@.two_auth,
            old_two_auth_entity,
        ) {
            Some(error) => Err(error),
            None => Ok::<(), AuthError>(()),
        },
        result is Err ==> *final(w_token_account) == *old(w_token_account),
        result is Ok ==> final(w_token_account)@ == (AccountState {
            two_auth: Some(
                PolicyState {
                    functions: rule_states(functions@),
                    two_auth_entity,
                    allowed_issuers: allowed_issuers@,
                },
            ),
            ..old(w_token_account)@
        }),
{
    if let Err(error) = check_idendity_not_recovered(idendity) {
        return Err(AuthError::Idendity(error));
    }
    if let Err(error) = check_authorization_old_two_auth_entity(
        &old_two_auth_entity,
        w_token_account,
    ) {
        return Err(AuthError::TwoAuth(error));
    }
    let two_auth_parameters = TwoAuthParameters {
        functions: functions,
        two_auth_entity: two_auth_entity,
        allowed_issuers: allowed_issuers,
    };

    w_token_account.two_auth = Some(two_auth_parameters);

    Ok(())
}

/// Takes the configuration off the account, after which no transfer from
/// it needs a second signer.
///
/// Fails, and changes nothing, on the same conditions as `_update_two_auth`.
pub fn _remove_two_auth(
    idendity: &IdAccount,
    w_token_account: &mut WrappedTokenAccount,
    old_two_auth_entity: Option<Key>,
) -> (result: Result<(), AuthError>)
    ensures
        result == match replacement_error(
            idendity.recovered_address,
            old(w_token_account)@.two_auth,
            old_two_auth_entity,
        ) {
            Some(error) => Err(error),
            None => Ok::<(), AuthError>(()),
        },
        result is Err ==> *final(w_token_account) == *old(w_token_account),
        result is Ok ==> final(w_token_account)@ == (AccountState {
            two_auth: None,
            ..old(w_token_account)@
        }),
{
    if let Err(error) = check_idendity_not_recovered(idendity) {
        return Err(AuthError::Idendity(error));
    }
    if let Err(error) = check_authorization_old_two_auth_entity(
        &old_two_auth_entity,
        w_token_account,
    ) {
        return Err(AuthError::TwoAuth(error));
    }
    w_token_account.two_auth = None;

    Ok(())
}

/// The replacement guard. Replacing a configuration without the
/// co-signature of its two-auth entity fails with
/// `NotAuthorizedToReplacePolicy`. With that co-signature, and an identity
/// that was not recovered, it succeeds; from then on the new entity is the
/// one that counts: it alone can co-sign the next change, and it alone can
/// co-sign a transfer for which a rule requires the second signer.
pub proof fn lemma_replacement_guard(
    recovered_address: Option<Key>,
    current: PolicyState,
    replacement: PolicyState,
    old_two_auth_entity: Option<Key>,
    next_signer: Option<Key>,
    amount: u64,
    now: i64,
    destination: Key,
)
    requires
        recovered_address is None,
    ensures
        old_two_auth_entity != Some(current.two_auth_entity) ==> replacement_error(
            recovered_address,
            Some(current),
            old_two_auth_entity,
        ) == Some(AuthError::TwoAuth(TwoAuthError::NotAuthorizedToReplacePolicy)),
        old_two_auth_entity == Some(current.two_auth_entity) ==> replacement_error(
            recovered_address,
            Some(current),
            old_two_auth_entity,
        ) is None,
        replacement_authorized(Some(replacement), next_signer) <==> next_signer == Some(
            replacement.two_auth_entity,
        ),
        second_signer_missing(Some(replacement), amount, now, destination, next_signer) <==> (
        any_requires(replacement.functions, amount, now, destination) && next_signer != Some(
            replacement.two_auth_entity,
        )),
{
}

} // verus!
