//! The token manager's decision: serve the cached service token while it is
//! valid, otherwise refresh through the access token, otherwise require a
//! fresh login.  The network exchange itself happens outside the library;
//! it performs the action this module decides and stores the result back
//! through `storage::save_token`.

use vstd::prelude::*;
use crate::auth::{AccessTokenResponse, CopilotTokenResponse};
use crate::storage::{CredentialStore, is_token_expired_at, token_expired_at};

verus! {

/// What the caller must do to obtain a valid service token.
#[derive(Debug)]
pub enum TokenPlan {
    /// The cached token is still valid: use it as is.
    UseCached(CopilotTokenResponse),
    /// Exchange this access token for a fresh service token.
    RefreshWith(AccessTokenResponse),
    /// No usable credential exists: the user must log in again.
    LoginRequired,
}

/// Decide how to obtain a valid service token when the clock reads `now`:
/// a cached, unexpired token is used as is; otherwise a stored access token
/// is exchanged; otherwise login is required.
pub fn plan_valid_token(store: &CredentialStore, now: u64) -> (r: TokenPlan)
    ensures
        match r {
            TokenPlan::UseCached(t) => store.copilot_token == Some(t) && !token_expired_at(t, now),
            TokenPlan::RefreshWith(a) => store.access_token == Some(a) && (match store
                .copilot_token {
                Some(t) => token_expired_at(t, now),
                None => true,
            }),
            TokenPlan::LoginRequired => store.access_token is None && (match store.copilot_token {
                Some(t) => token_expired_at(t, now),
                None => true,
            }),
        },
{
    match &store.copilot_token {
        Some(t) => {
            if !is_token_expired_at(t, now) {
                return TokenPlan::UseCached(t.clone());
            }
        },
        None => {},
    }
    match &store.access_token {
        Some(a) => TokenPlan::RefreshWith(a.clone()),
        None => TokenPlan::LoginRequired,
    }
}

} // verus!
