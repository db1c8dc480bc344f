//! Identities, the issuers that vouch for them, and the validity check.
//!
//! An identity carries one credential per issuer. The list only grows:
//! an issuer's entry is never taken out, so its `active` flag and its expiry
//! say whether the credential still counts.

use crate::error::IdendityError;
use crate::key::{contains_key, Key};
use vstd::prelude::*;

verus! {

/// The credential that one issuer gave to an identity.
#[derive(Clone, Copy, Debug)]
pub struct Issuer {
    pub key: Key,
    pub last_modified: i64,
    pub expires_at: i64,
    pub active: bool,
}

/// The record that says whether an issuer may attach credentials.
#[derive(Clone, Copy, Debug)]
pub struct ApprovedIssuer {
    pub is_active: bool,
    pub last_modified: i64,
}

/// An owner and the credentials attached to it.
#[derive(Debug)]
pub struct IdAccount {
    pub owner: Key,
    /// In the order in which the issuers were added.
    pub issuers: Vec<Issuer>,
    /// Set once the identity was recovered, which freezes it: no issuer can
    /// be added any more. Its credentials still count.
    pub recovered_address: Option<Key>,
}

/// Whether an entry of `issuers` belongs to the issuer `key`.
pub open spec fn has_issuer(issuers: Seq<Issuer>, key: Key) -> bool {
    exists|i: int| 0 <= i < issuers.len() && (#[trigger] issuers[i]).key == key
}

/// No issuer has two entries.
pub open spec fn distinct_issuers(issuers: Seq<Issuer>) -> bool {
    forall|i: int, j: int|
        0 <= i < j < issuers.len() ==> (#[trigger] issuers[i]).key != (#[trigger] issuers[j]).key
}

/// Whether this credential counts at `now` for a counterpart that accepts
/// the issuers `allowed`: its issuer is one of them, it is active, and it
/// expires after `now`.
pub open spec fn issuer_valid(issuer: Issuer, allowed: Seq<Key>, now: i64) -> bool {
    &&& allowed.contains(issuer.key)
    &&& issuer.active
    &&& issuer.expires_at > now
}

/// Whether at least one credential of `issuers` counts at `now`.
pub open spec fn identity_valid(issuers: Seq<Issuer>, allowed: Seq<Key>, now: i64) -> bool {
    exists|i: int| 0 <= i < issuers.len() && issuer_valid(#[trigger] issuers[i], allowed, now)
}

/// The entry that `issuer` gets when it is attached at `now` for
/// `id_validity_duration` seconds.
pub open spec fn new_issuer(issuer: Key, now: i64, id_validity_duration: i64) -> Issuer {
    Issuer {
        key: issuer,
        last_modified: now,
        expires_at: (now + id_validity_duration) as i64,
        active: true,
    }
}

impl Clone for IdAccount {
    fn clone(&self) -> (copy: Self)
        ensures
            copy.owner == self.owner,
            copy.issuers@ == self.issuers@,
            copy.recovered_address == self.recovered_address,
    {
        let issuers = self.issuers.clone();
        assert(issuers@ =~= self.issuers@);
        IdAccount { owner: self.owner, issuers, recovered_address: self.recovered_address }
    }
}

impl IdAccount {
    /// No issuer has two entries in the identity.
    pub open spec fn wf(&self) -> bool {
        distinct_issuers(self.issuers@)
    }
}

/// Approves an issuer, at `now`.
pub fn _approve_issuer(approval: &mut ApprovedIssuer, now: i64)
    ensures
        *final(approval) == (ApprovedIssuer { is_active: true, last_modified: now }),
{
    approval.is_active = true;
    approval.last_modified = now;
}

/// Takes an issuer's approval back, at `now`.
pub fn _revoke_issuer(approval: &mut ApprovedIssuer, now: i64)
    ensures
        *final(approval) == (ApprovedIssuer { is_active: false, last_modified: now }),
{
    approval.is_active = false;
    approval.last_modified = now;
}

/// Sets up the identity of `owner` with a first credential, given by
/// `issuer` at `now` and good for `id_validity_duration` seconds.
///
/// Fails with `IssuerNotApproved`, and changes nothing, where the issuer's
/// approval is not active. The end of the validity, `now` and
/// `id_validity_duration` added up, has to be a time that `i64` can hold.
pub fn _initialize_id(
    idendity: &mut IdAccount,
    approval: &ApprovedIssuer,
    owner: Key,
    issuer: Key,
    now: i64,
    id_validity_duration: i64,
) -> (result: Result<(), IdendityError>)
    requires
        i64::MIN <= now + id_validity_duration <= i64::MAX,
    ensures
        result == if approval.is_active {
            Ok::<(), IdendityError>(())
        } else {
            Err(IdendityError::IssuerNotApproved)
        },
        result is Err ==> *final(idendity) == *old(idendity),
        result is Ok ==> {
            &&& final(idendity).owner == owner
            &&& final(idendity).issuers@ == seq![new_issuer(issuer, now, id_validity_duration)]
            &&& final(idendity).recovered_address == old(idendity).recovered_address
            &&& final(idendity).wf()
        },
{
    // Check if the issuer has been approved
    if !approval.is_active {
        return Err(IdendityError::IssuerNotApproved);
    }
    idendity.owner = owner;

    let issuer = Issuer {
        key: issuer,
        last_modified: now,
        expires_at: now + id_validity_duration,
        active: true,
    };
    idendity.issuers = vec![issuer];
    Ok(())
}

/// The error that keeps `issuer` from being attached to an identity, if
/// there is one. The approval is looked at first, then the freeze, then the
/// entries the identity has.
pub open spec fn add_issuer_error(
    approval: ApprovedIssuer,
    recovered_address: Option<Key>,
    issuers: Seq<Issuer>,
    issuer: Key,
) -> Option<IdendityError> {
    if !approval.is_active {
        Some(IdendityError::IssuerNotApproved)
    } else if recovered_address is Some {
        Some(IdendityError::IdendityRecovered)
    } else if has_issuer(issuers, issuer) {
        Some(IdendityError::IdendityAlreadyExists)
    } else {
        None
    }
}

/// Attaches a credential of `issuer` to the identity, given at `now` and
/// good for `id_validity_duration` seconds. The new entry goes to the end.
///
/// Fails, and changes nothing, where the issuer is not approved, where the
/// identity was recovered, and where the issuer already has an entry. The
/// end of the validity, `now` and `id_validity_duration` added up, has to be
/// a time that `i64` can hold.
pub fn _add_issuer_to_id(
    idendity: &mut IdAccount,
    approval: &ApprovedIssuer,
    issuer: Key,
    now: i64,
    id_validity_duration: i64,
) -> (result: Result<(), IdendityError>)
    requires
        i64::MIN <= now + id_validity_duration <= i64::MAX,
    ensures
        result == match add_issuer_error(
            *approval,
            old(idendity).recovered_address,
            old(idendity).issuers@,
            issuer,
        ) {
            Some(error) => Err(error),
            None => Ok::<(), IdendityError>(()),
        },
        result is Err ==> *final(idendity) == *old(idendity),
        result is Ok ==> {
            &&& final(idendity).owner == old(idendity).owner
            &&& final(idendity).issuers@ == old(idendity).issuers@.push(
                new_issuer(issuer, now, id_validity_duration),
            )
            &&& final(idendity).recovered_address == old(idendity).recovered_address
        },
        old(idendity).wf() ==> final(idendity).wf(),
{
    // Check if the issuer has been approved
    if !approval.is_active {
        return Err(IdendityError::IssuerNotApproved);
    }
    // Check if the idendity has been recovered

    if idendity.recovered_address.is_some() {
        return Err(IdendityError::IdendityRecovered);
    }
    let mut i: usize = 0;
    while i < idendity.issuers.len()
        invariant
            i <= idendity.issuers.len(),
            *idendity == *old(idendity),
            approval.is_active,
            idendity.recovered_address is None,
            forall|j: int| 0 <= j < i ==> (#[trigger] idendity.issuers@[j]).key != issuer,
        decreases idendity.issuers.len() - i,
    {
        if idendity.issuers[i].key == issuer {
            assert(old(idendity).issuers@[i as int].key == issuer);
            return Err(IdendityError::IdendityAlreadyExists);
        }
        i += 1;
    }
    let new_issuer = Issuer {
        key: issuer,
        last_modified: now,
        expires_at: now + id_validity_duration,
        active: true,
    };
    idendity.issuers.push(new_issuer);

    Ok(())
}

/// Fails with `IdendityRecovered` where the identity was recovered.
pub fn check_idendity_not_recovered(idendity: &IdAccount) -> (result: Result<(), IdendityError>)
    ensures
        result == if idendity.recovered_address is Some {
            Err(IdendityError::IdendityRecovered)
        } else {
            Ok::<(), IdendityError>(())
        },
{
    if idendity.recovered_address.is_some() {
        return Err(IdendityError::IdendityRecovered);
    }
    Ok(())
}

/// Check that at least one of the idendity issuer is active and not expired
/// and among the allowed issuers. Fails with `InvalidIdendity` where none
/// is.
pub fn check_idendities(
    user_issuers: &Vec<Issuer>,
    allowed_issuers: &Vec<Key>,
    current_time: i64,
) -> (result: Result<(), IdendityError>)
    ensures
        result == if identity_valid(user_issuers@, allowed_issuers@, current_time) {
            Ok::<(), IdendityError>(())
        } else {
            Err(IdendityError::InvalidIdendity)
        },
{
    let mut i: usize = 0;
    while i < user_issuers.len()
        invariant
            i <= user_issuers.len(),
            forall|j: int|
                0 <= j < i ==> !issuer_valid(
                    #[trigger] user_issuers@[j],
                    allowed_issuers@,
                    current_time,
                ),
        decreases user_issuers.len() - i,
    {
        let issuer = &user_issuers[i];
        if contains_key(allowed_issuers, &issuer.key) && issuer.active && issuer.expires_at
            > current_time {
            return Ok(());  // At least one of the issuer is valid
        }
        i += 1;
    }
    return Err(IdendityError::InvalidIdendity);
}

/// The validity boundary: a credential that expires at `now` or earlier
/// does not count at `now`, and one that is not active counts at no time.
/// An identity with no other credential is then not valid.
pub proof fn lemma_expired_or_inactive_is_invalid(issuer: Issuer, allowed: Seq<Key>, now: i64)
    requires
        issuer.expires_at <= now || !issuer.active,
    ensures
        !issuer_valid(issuer, allowed, now),
        !identity_valid(seq![issuer], allowed, now),
{
}

} // verus!
