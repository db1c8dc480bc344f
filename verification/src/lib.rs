//! Authorization core for wrapped-token transfers.
//!
//! A transfer has to pass two independent gates. The identity gate accepts a
//! participant who holds a credential from an issuer that the wrapper
//! allow-lists, and that is active and unexpired. The two-auth gate runs the
//! rules configured on the source account and, when one of them asks for it,
//! demands the co-signature of the account's two-auth entity.

pub mod duration;
pub mod error;
pub mod idendity;
pub mod key;
pub mod transfer;
pub mod two_auth;
pub mod two_auth_state;
pub mod window;
pub mod window_history;
pub mod wrapped_account;

pub use duration::Duration;
pub use error::{AuthError, IdendityError, TransferError, TwoAuthError};
pub use idendity::{
    _add_issuer_to_id, _approve_issuer, _initialize_id, _revoke_issuer, check_idendities,
    check_idendity_not_recovered, ApprovedIssuer, IdAccount, Issuer,
};
pub use key::Key;
pub use transfer::_transfer;
pub use two_auth::{
    _remove_two_auth, _update_two_auth, check_authorization_old_two_auth_entity,
};
pub use two_auth_state::{
    apply_two_auth_functions, check_second_signer, evaluate_two_auth_functions, match_functions,
    PolicyState, RuleState, TwoAuthFunction, TwoAuthParameters,
};
pub use window::{CircularTimeWindow, WindowState};
pub use wrapped_account::{AccountState, WrappedTokenAccount};
