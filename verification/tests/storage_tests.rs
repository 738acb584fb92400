//! Tests for the credential store, the token paths, the expiry rule and
//! the refresh plan.

use passenger_rs::auth::{AccessTokenResponse, CopilotTokenResponse};
use passenger_rs::storage::{
    delete_token, get_access_token_path, get_storage_dir, get_token_path, is_token_expired,
    is_token_expired_at, load_access_token, load_token, save_access_token, save_token,
    token_exists, CredentialStore,
};
use passenger_rs::token_manager::{plan_valid_token, TokenPlan};
use std::time::{SystemTime, UNIX_EPOCH};

fn now_secs() -> u64 {
    SystemTime::now()
        .duration_since(UNIX_EPOCH)
        .expect("time should go forward")
        .as_secs()
}

fn token(expires_at: u64) -> CopilotTokenResponse {
    CopilotTokenResponse {
        token: "test".to_string(),
        expires_at,
        refresh_in: 0,
    }
}

#[test]
fn test_get_storage_dir() {
    let dir = get_storage_dir("/home/tester");
    assert!(dir.ends_with(".config/passenger-rs"));
}

#[test]
fn test_get_token_path() {
    let dir = get_storage_dir("/home/tester");
    let path = get_token_path(&dir);
    assert!(path.ends_with(".config/passenger-rs/token.json"));
}

#[test]
fn access_token_path_sits_beside_the_token_path() {
    let dir = get_storage_dir("/home/tester");
    let path = get_access_token_path(&dir);
    assert_eq!(path, "/home/tester/.config/passenger-rs/access_token.json");
}

#[test]
fn test_is_token_expired() {
    let now = now_secs();

    // Token expired 1 hour ago
    let expired_token = token(now - 3600);
    assert!(is_token_expired(&expired_token));

    // Token expires in 30 seconds (within buffer, should be considered expired)
    let almost_expired_token = token(now + 30);
    assert!(is_token_expired(&almost_expired_token));

    // Token expires in 10 minutes (valid)
    let valid_token = token(now + 600);
    assert!(!is_token_expired(&valid_token));
}

#[test]
fn expiry_buffer_boundary_is_inclusive() {
    let now: u64 = 1_000_000;
    assert!(is_token_expired_at(&token(now), now), "at the clock: expired");
    assert!(is_token_expired_at(&token(now + 1), now), "inside the buffer: expired");
    assert!(is_token_expired_at(&token(now + 60), now), "buffer edge: still expired");
    assert!(!is_token_expired_at(&token(now + 61), now), "past the buffer: valid");
}

#[test]
fn store_round_trips_both_records() {
    let mut store = CredentialStore::new();
    assert!(!token_exists(&store));
    assert!(load_token(&store).is_none());
    assert!(load_access_token(&store).is_none());

    save_token(&mut store, &token(42));
    assert!(token_exists(&store));
    assert_eq!(load_token(&store).unwrap().expires_at, 42);

    let access = AccessTokenResponse {
        access_token: "gho_abc".to_string(),
        token_type: "bearer".to_string(),
        scope: "read:user".to_string(),
    };
    save_access_token(&mut store, &access);
    assert_eq!(load_access_token(&store).unwrap().access_token, "gho_abc");

    delete_token(&mut store);
    assert!(!token_exists(&store));
    assert!(load_access_token(&store).is_some(), "the access record stays");
}

#[test]
fn plan_uses_cached_token_while_valid() {
    let mut store = CredentialStore::new();
    let now: u64 = 10_000;
    save_token(&mut store, &token(now + 600));
    match plan_valid_token(&store, now) {
        TokenPlan::UseCached(t) => assert_eq!(t.expires_at, now + 600),
        other => panic!("expected UseCached, got {:?}", other),
    }
}

#[test]
fn plan_refreshes_an_expired_token_through_the_access_token() {
    let mut store = CredentialStore::new();
    let now: u64 = 10_000;
    save_token(&mut store, &token(now + 30));
    save_access_token(
        &mut store,
        &AccessTokenResponse {
            access_token: "gho_refresh".to_string(),
            token_type: "bearer".to_string(),
            scope: "read:user".to_string(),
        },
    );
    match plan_valid_token(&store, now) {
        TokenPlan::RefreshWith(a) => assert_eq!(a.access_token, "gho_refresh"),
        other => panic!("expected RefreshWith, got {:?}", other),
    }
}

#[test]
fn plan_requires_login_without_any_credential() {
    let store = CredentialStore::new();
    assert!(matches!(
        plan_valid_token(&store, 0),
        TokenPlan::LoginRequired
    ));
}
