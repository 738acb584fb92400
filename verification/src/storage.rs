//! The credential store and the token-expiry rule.
//!
//! The store is the key-value abstraction the gateway persists its two
//! records through: the long-lived access token and the short-lived service
//! token.  This module holds the records in memory with exact contracts;
//! reading and writing them on disk is plain I/O and happens outside the
//! library, which hands a loaded store in.

use vstd::prelude::*;
use vstd::string::StringExecFns;
use crate::auth::{AccessTokenResponse, CopilotTokenResponse};
use crate::clock::unix_now;

verus! {

/// The two records the gateway persists.
#[derive(Debug)]
pub struct CredentialStore {
    pub copilot_token: Option<CopilotTokenResponse>,
    pub access_token: Option<AccessTokenResponse>,
}

impl CredentialStore {
    /// An empty store: nothing persisted yet.
    pub fn new() -> (r: CredentialStore)
        ensures
            r.copilot_token is None,
            r.access_token is None,
    {
        CredentialStore { copilot_token: None, access_token: None }
    }
}

/// The directory the records live in, under the given home directory.
pub fn get_storage_dir(home: &str) -> (r: String)
    ensures
        r@ == home@ + "/.config/passenger-rs"@,
{
    let mut out = home.to_owned();
    out.append("/.config/passenger-rs");
    out
}

/// The service-token record's path inside the storage directory.
pub fn get_token_path(storage_dir: &str) -> (r: String)
    ensures
        r@ == storage_dir@ + "/token.json"@,
{
    let mut out = storage_dir.to_owned();
    out.append("/token.json");
    out
}

/// The access-token record's path inside the storage directory.
pub fn get_access_token_path(storage_dir: &str) -> (r: String)
    ensures
        r@ == storage_dir@ + "/access_token.json"@,
{
    let mut out = storage_dir.to_owned();
    out.append("/access_token.json");
    out
}

/// Replace the stored service token wholesale.
pub fn save_token(store: &mut CredentialStore, token: &CopilotTokenResponse)
    ensures
        final(store).copilot_token == Some(*token),
        final(store).access_token == old(store).access_token,
{
    store.copilot_token = Some(token.clone());
}

/// Replace the stored access token wholesale.
pub fn save_access_token(store: &mut CredentialStore, token: &AccessTokenResponse)
    ensures
        final(store).access_token == Some(*token),
        final(store).copilot_token == old(store).copilot_token,
{
    store.access_token = Some(token.clone());
}

/// The stored service token, if one exists.
pub fn load_token(store: &CredentialStore) -> (r: Option<CopilotTokenResponse>)
    ensures
        r == store.copilot_token,
{
    match &store.copilot_token {
        Some(t) => Some(t.clone()),
        None => None,
    }
}

/// The stored access token, if one exists.
pub fn load_access_token(store: &CredentialStore) -> (r: Option<AccessTokenResponse>)
    ensures
        r == store.access_token,
{
    match &store.access_token {
        Some(t) => Some(t.clone()),
        None => None,
    }
}

/// Whether a service token is stored.
pub fn token_exists(store: &CredentialStore) -> (r: bool)
    ensures
        r == (store.copilot_token is Some),
{
    store.copilot_token.is_some()
}

/// Remove the stored service token.
pub fn delete_token(store: &mut CredentialStore)
    ensures
        final(store).copilot_token is None,
        final(store).access_token == old(store).access_token,
{
    store.copilot_token = None;
}

/// A token is unusable once the current time is within sixty seconds of its
/// absolute expiry (or past it).
pub open spec fn token_expired_at(token: CopilotTokenResponse, now: u64) -> bool {
    token.expires_at <= now + 60
}

/// Whether `token` is expired when the clock reads `now`, with the
/// sixty-second safety buffer.
pub fn is_token_expired_at(token: &CopilotTokenResponse, now: u64) -> (r: bool)
    ensures
        r == token_expired_at(*token, now),
{
    if now > u64::MAX - 60 {
        true
    } else {
        token.expires_at <= now + 60
    }
}

/// Whether `token` is expired right now.  The clock's reading cannot be
/// promised, so the exact rule lives in `is_token_expired_at`.
pub fn is_token_expired(token: &CopilotTokenResponse) -> bool {
    let now = unix_now();
    is_token_expired_at(token, now)
}

/// How expiry classifies a token around the sixty-second buffer: anything at
/// or before `now` is expired, anything within the buffer window
/// `(now, now + 60]` is already treated as expired, and anything beyond the
/// buffer is still valid.
pub proof fn lemma_token_expiry_buffer(token: CopilotTokenResponse, now: u64)
    ensures
        token.expires_at <= now ==> token_expired_at(token, now),
        now < token.expires_at <= now + 60 ==> token_expired_at(token, now),
        token.expires_at > now + 60 ==> !token_expired_at(token, now),
{
}

} // verus!
