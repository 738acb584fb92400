//! Tests for the device-flow response classification.

use passenger_rs::auth::{
    classify_copilot_token_response, classify_device_code_response, classify_poll_response,
    AuthError, PollAction,
};

#[test]
fn device_code_success_parses_all_fields() {
    let body = r#"{
        "device_code": "test_device_code_12345",
        "user_code": "ABCD-1234",
        "verification_uri": "https://github.com/login/device",
        "expires_in": 899,
        "interval": 5
    }"#;
    let result = classify_device_code_response(200, body);
    assert!(result.is_ok(), "Request should succeed");
    let response = result.unwrap();
    assert_eq!(response.device_code, "test_device_code_12345");
    assert_eq!(response.user_code, "ABCD-1234");
    assert_eq!(response.verification_uri, "https://github.com/login/device");
    assert_eq!(response.expires_in, 899);
    assert_eq!(response.interval, 5);
}

#[test]
fn device_code_error_status_is_surfaced() {
    let result = classify_device_code_response(401, "Unauthorized");
    match result {
        Err(AuthError::Upstream { status, body }) => {
            assert_eq!(status, 401);
            assert_eq!(body, "Unauthorized");
        }
        other => panic!("expected Upstream error, got {:?}", other),
    }
}

#[test]
fn device_code_unparseable_body_is_a_protocol_error() {
    let result = classify_device_code_response(200, "not json");
    assert!(matches!(result, Err(AuthError::Protocol { .. })));
}

#[test]
fn poll_pending_twice_then_success_sleeps_twice() {
    // The scenario: two `authorization_pending` answers with interval 5
    // each wait 5 seconds, then the success payload is returned.
    let pending = r#"{
        "error": "authorization_pending",
        "error_description": "Pending user authorization",
        "error_uri": "https://docs.github.com/developers/apps"
    }"#;
    let success = r#"{
        "access_token": "gho_test_access_token_12345",
        "token_type": "bearer",
        "scope": "read:user"
    }"#;

    let mut interval: u64 = 5;
    let mut sleeps = Vec::new();
    for body in [pending, pending, success] {
        match classify_poll_response(body, interval) {
            PollAction::Sleep {
                seconds,
                next_interval,
            } => {
                sleeps.push(seconds);
                interval = next_interval;
            }
            PollAction::Success(token) => {
                assert_eq!(token.access_token, "gho_test_access_token_12345");
                assert_eq!(token.token_type, "bearer");
                assert_eq!(token.scope, "read:user");
            }
            other => panic!("unexpected action {:?}", other),
        }
    }
    assert_eq!(sleeps, vec![5, 5], "pending answers sleep the interval twice");
}

#[test]
fn poll_slow_down_increases_the_interval() {
    let slow = r#"{
        "error": "slow_down",
        "error_description": "Slow down",
        "error_uri": "https://docs.github.com/developers/apps"
    }"#;
    match classify_poll_response(slow, 5) {
        PollAction::Sleep {
            seconds,
            next_interval,
        } => {
            assert_eq!(seconds, 10, "the next sleep is interval + 5");
            assert_eq!(next_interval, 10, "the increased interval sticks");
        }
        other => panic!("expected Sleep, got {:?}", other),
    }
}

#[test]
fn poll_expired_token_fails() {
    let body = r#"{
        "error": "expired_token",
        "error_description": "The device code has expired",
        "error_uri": "https://docs.github.com/developers/apps"
    }"#;
    assert!(matches!(
        classify_poll_response(body, 1),
        PollAction::Failure(AuthError::ExpiredDeviceCode)
    ));
}

#[test]
fn poll_access_denied_fails() {
    let body = r#"{
        "error": "access_denied",
        "error_description": "The user denied the request",
        "error_uri": "https://docs.github.com/developers/apps"
    }"#;
    assert!(matches!(
        classify_poll_response(body, 1),
        PollAction::Failure(AuthError::AccessDenied)
    ));
}

#[test]
fn poll_unknown_error_code_carries_code_and_description() {
    let body = r#"{
        "error": "incorrect_client_credentials",
        "error_description": "The client_id is not right",
        "error_uri": "https://docs.github.com/developers/apps"
    }"#;
    match classify_poll_response(body, 1) {
        PollAction::Failure(AuthError::Poll { code, description }) => {
            assert_eq!(code, "incorrect_client_credentials");
            assert_eq!(description, "The client_id is not right");
        }
        other => panic!("expected Poll failure, got {:?}", other),
    }
}

#[test]
fn poll_unparseable_body_is_a_protocol_error() {
    assert!(matches!(
        classify_poll_response("not json", 1),
        PollAction::Failure(AuthError::Protocol { .. })
    ));
}

#[test]
fn copilot_token_success_parses_all_fields() {
    let body = r#"{
        "token": "copilot_test_token_abcdef123456",
        "expires_at": 1735689600,
        "refresh_in": 1500
    }"#;
    let result = classify_copilot_token_response(200, body);
    assert!(result.is_ok(), "Request should succeed");
    let response = result.unwrap();
    assert_eq!(response.token, "copilot_test_token_abcdef123456");
    assert_eq!(response.expires_at, 1735689600);
    assert_eq!(response.refresh_in, 1500);
}

#[test]
fn copilot_token_unauthorized_is_surfaced() {
    let result = classify_copilot_token_response(401, "Unauthorized");
    match result {
        Err(AuthError::Upstream { status, .. }) => assert_eq!(status, 401),
        other => panic!("expected Upstream error, got {:?}", other),
    }
}
