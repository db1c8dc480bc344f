use two_auth::{
    _remove_two_auth, _transfer, _update_two_auth, check_authorization_old_two_auth_entity,
    AuthError, IdAccount, IdendityError, Issuer, Key, TwoAuthError, TwoAuthFunction,
    TwoAuthParameters, WrappedTokenAccount,
};

fn key(n: u8) -> Key {
    Key { bytes: [n; 32] }
}

fn account(amount: u64) -> WrappedTokenAccount {
    WrappedTokenAccount {
        wrapper_account: key(200),
        mint: key(201),
        owner: key(10),
        amount,
        last_tx: 7,
        two_auth: None,
    }
}

fn guarded(amount: u64, entity: u8) -> WrappedTokenAccount {
    let mut account = account(amount);
    account.two_auth = Some(TwoAuthParameters {
        functions: vec![TwoAuthFunction::OnMax { max: 1000 }],
        two_auth_entity: key(entity),
        allowed_issuers: vec![key(1)],
    });
    account
}

fn identity() -> IdAccount {
    IdAccount { owner: key(10), issuers: vec![], recovered_address: None }
}

fn recovered() -> IdAccount {
    IdAccount { owner: key(10), issuers: vec![], recovered_address: Some(key(90)) }
}

fn not_authorized() -> Result<(), AuthError> {
    Err(AuthError::TwoAuth(TwoAuthError::NotAuthorizedToReplacePolicy))
}

#[test]
fn a_first_configuration_needs_no_co_signer() {
    let mut account = account(100);
    let result = _update_two_auth(
        &identity(),
        &mut account,
        vec![TwoAuthFunction::Always, TwoAuthFunction::OnMax { max: 5 }],
        vec![key(1), key(2)],
        key(60),
        None,
    );
    assert_eq!(result, Ok(()));
    let parameters = account.two_auth.as_ref().unwrap();
    assert_eq!(parameters.functions.len(), 2);
    assert!(matches!(parameters.functions[0], TwoAuthFunction::Always));
    assert!(matches!(parameters.functions[1], TwoAuthFunction::OnMax { max: 5 }));
    assert!(parameters.two_auth_entity == key(60));
    assert_eq!(parameters.allowed_issuers.len(), 2);
    assert_eq!(account.amount, 100);
    assert_eq!(account.last_tx, 7);
}

#[test]
fn replacing_without_the_current_entity_fails() {
    let mut account = guarded(100, 60);
    let result =
        _update_two_auth(&identity(), &mut account, vec![], vec![], key(61), None);
    assert_eq!(result, not_authorized());
    let result =
        _update_two_auth(&identity(), &mut account, vec![], vec![], key(61), Some(key(61)));
    assert_eq!(result, not_authorized());
    let parameters = account.two_auth.as_ref().unwrap();
    assert!(parameters.two_auth_entity == key(60));
    assert_eq!(parameters.functions.len(), 1);
}

#[test]
fn replacing_with_the_current_entity_puts_the_new_one_in_charge() {
    let mut account = guarded(100, 60);
    let result = _update_two_auth(
        &identity(),
        &mut account,
        vec![TwoAuthFunction::Always],
        vec![],
        key(61),
        Some(key(60)),
    );
    assert_eq!(result, Ok(()));
    assert!(account.two_auth.as_ref().unwrap().two_auth_entity == key(61));

    let issuers = vec![Issuer { key: key(1), last_modified: 0, expires_at: 1000, active: true }];
    let allowed = vec![key(1)];
    let mut destination = WrappedTokenAccount { owner: key(11), ..guarded(0, 70) };
    let mut send = |account: &mut WrappedTokenAccount, signer: Option<Key>| {
        _transfer(
            &key(1),
            account,
            &issuers,
            &key(2),
            &mut destination,
            &issuers,
            &allowed,
            signer,
            10,
            500,
        )
    };
    let missing = Err(AuthError::TwoAuth(TwoAuthError::SecondaryAuthorizationRequired));
    assert_eq!(send(&mut account, Some(key(60))), missing);
    assert_eq!(send(&mut account, None), missing);
    assert_eq!(send(&mut account, Some(key(61))), Ok(()));
    assert_eq!(account.amount, 90);

    let result =
        _update_two_auth(&identity(), &mut account, vec![], vec![], key(62), Some(key(60)));
    assert_eq!(result, not_authorized());
    let result =
        _update_two_auth(&identity(), &mut account, vec![], vec![], key(62), Some(key(61)));
    assert_eq!(result, Ok(()));
    assert!(account.two_auth.as_ref().unwrap().two_auth_entity == key(62));
}

#[test]
fn a_recovered_identity_cannot_change_the_configuration() {
    let frozen = Err(AuthError::Idendity(IdendityError::IdendityRecovered));
    let mut account = guarded(100, 60);
    let result =
        _update_two_auth(&recovered(), &mut account, vec![], vec![], key(61), Some(key(60)));
    assert_eq!(result, frozen);
    let result = _update_two_auth(&recovered(), &mut account, vec![], vec![], key(61), None);
    assert_eq!(result, frozen);
    assert_eq!(_remove_two_auth(&recovered(), &mut account, Some(key(60))), frozen);
    assert!(account.two_auth.as_ref().unwrap().two_auth_entity == key(60));
    let mut bare = account.clone();
    bare.two_auth = None;
    let result = _update_two_auth(&recovered(), &mut bare, vec![], vec![], key(61), None);
    assert_eq!(result, frozen);
    assert!(bare.two_auth.is_none());
}

#[test]
fn removing_needs_the_current_entity_too() {
    let mut account = guarded(100, 60);
    assert_eq!(_remove_two_auth(&identity(), &mut account, None), not_authorized());
    assert_eq!(_remove_two_auth(&identity(), &mut account, Some(key(61))), not_authorized());
    assert!(account.two_auth.is_some());
    assert_eq!(_remove_two_auth(&identity(), &mut account, Some(key(60))), Ok(()));
    assert!(account.two_auth.is_none());
    assert_eq!(account.amount, 100);
    assert_eq!(_remove_two_auth(&identity(), &mut account, None), Ok(()));
    assert!(account.two_auth.is_none());
}

#[test]
fn after_removal_no_second_signer_is_needed() {
    let mut account = guarded(100, 60);
    account.two_auth.as_mut().unwrap().functions = vec![TwoAuthFunction::Always];
    assert_eq!(_remove_two_auth(&identity(), &mut account, Some(key(60))), Ok(()));
    let issuers = vec![Issuer { key: key(1), last_modified: 0, expires_at: 1000, active: true }];
    let mut destination = WrappedTokenAccount { owner: key(11), ..guarded(0, 70) };
    let result = _transfer(
        &key(1),
        &mut account,
        &issuers,
        &key(2),
        &mut destination,
        &issuers,
        &vec![key(1)],
        None,
        10,
        500,
    );
    assert_eq!(result, Ok(()));
}

#[test]
fn the_old_entity_is_checked_against_the_configuration() {
    let not_authorized = Err(TwoAuthError::NotAuthorizedToReplacePolicy);
    let bare = account(1);
    assert_eq!(check_authorization_old_two_auth_entity(&None, &bare), Ok(()));
    assert_eq!(check_authorization_old_two_auth_entity(&Some(key(3)), &bare), Ok(()));
    let guarded = guarded(1, 60);
    assert_eq!(check_authorization_old_two_auth_entity(&None, &guarded), not_authorized);
    assert_eq!(check_authorization_old_two_auth_entity(&Some(key(3)), &guarded), not_authorized);
    assert_eq!(check_authorization_old_two_auth_entity(&Some(key(60)), &guarded), Ok(()));
}

#[test]
fn account_init_len_with_and_without_configuration() {
    assert_eq!(WrappedTokenAccount::get_init_len(None), 121);
    let functions = vec![TwoAuthFunction::Always, TwoAuthFunction::OnMax { max: 3 }];
    let issuers = vec![key(1), key(2), key(3)];
    assert_eq!(WrappedTokenAccount::get_init_len(Some((&functions, &issuers))), 166);
    assert_eq!(
        WrappedTokenAccount::get_init_len(Some((&functions, &issuers))),
        TwoAuthParameters::get_init_len(&functions, &issuers)
    );
}
