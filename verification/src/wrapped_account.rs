//! The wrapped token account.

use crate::key::Key;
use crate::two_auth_state::{policy_state, PolicyState, TwoAuthFunction, TwoAuthParameters};
use vstd::prelude::*;

verus! {

/// What a wrapped token account holds, as plain values.
pub struct AccountState {
    pub wrapper_account: Key,
    pub mint: Key,
    pub owner: Key,
    pub amount: u64,
    pub last_tx: i64,
    pub two_auth: Option<PolicyState>,
}

/// A balance of wrapped tokens, with the two-auth configuration that guards
/// it. Without a configuration no transfer needs a second signer.
#[derive(Debug)]
pub struct WrappedTokenAccount {
    pub wrapper_account: Key,
    pub mint: Key,
    pub owner: Key,
    pub amount: u64,
    pub last_tx: i64,  // Last transaction timestamp
    pub two_auth: Option<TwoAuthParameters>,
}

impl View for WrappedTokenAccount {
    type V = AccountState;

    open spec fn view(&self) -> AccountState {
        AccountState {
            wrapper_account: self.wrapper_account,
            mint: self.mint,
            owner: self.owner,
            amount: self.amount,
            last_tx: self.last_tx,
            two_auth: policy_state(self.two_auth),
        }
    }
}

impl Clone for WrappedTokenAccount {
    fn clone(&self) -> (copy: Self)
        ensures
            copy@ == self@,
    {
        WrappedTokenAccount {
            wrapper_account: self.wrapper_account,
            mint: self.mint,
            owner: self.owner,
            amount: self.amount,
            last_tx: self.last_tx,
            two_auth: match &self.two_auth {
                Some(parameters) => Some(parameters.clone()),
                None => None,
            },
        }
    }
}

impl WrappedTokenAccount {
    /// Bytes to reserve for the account. Given the rules and the issuers of
    /// a configuration, this is the length of that configuration, which has
    /// to fit in `usize`; given none, it is the length of an account without
    /// one.
    pub fn get_init_len(two_auth: Option<(&Vec<TwoAuthFunction>, &Vec<Key>)>) -> (len: usize)
        requires
            two_auth matches Some(lists) ==> 8 + 4 + 11 * lists.0.len() + 32 + 4 + 32
                * lists.1.len() <= usize::MAX,
        ensures
            len == match two_auth {
                Some(lists) => 8 + 4 + 11 * lists.0.len() + 32 + 4 + 32 * lists.1.len(),
                None => 8int + 32 + 32 + 32 + 8 + 8 + 1,
            },
    {
        let two_auth_len: usize = match two_auth {
            Some(two_auth) => {
                return TwoAuthParameters::get_init_len(two_auth.0, two_auth.1);
            },
            None => 0,
        };
        return 8 + 32 + 32 + 32 + 8 + 8 + 1 + two_auth_len;
    }
}

} // verus!
