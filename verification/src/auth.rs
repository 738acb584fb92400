//! Device-authorization flow: the data carried by each step and the verified
//! classification of every upstream answer.
//!
//! The HTTP calls themselves happen outside the library; they hand in the
//! status and body of each response.  Parsing a body is done by `serde_json`
//! behind trusted wrappers whose results are named, and everything decided
//! from a parse result is verified.

use vstd::prelude::*;
use crate::text::str_eq;

verus! {

/// Answer to a device-code request.
#[derive(Debug)]
pub struct DeviceCodeResponse {
    pub device_code: String,
    pub user_code: String,
    pub verification_uri: String,
    pub expires_in: u64,
    pub interval: u64,
}

/// Answer to a successful access-token poll.
#[derive(Debug)]
pub struct AccessTokenResponse {
    pub access_token: String,
    pub token_type: String,
    pub scope: String,
}

/// Error object returned while polling for an access token.
#[derive(Debug)]
pub struct AccessTokenError {
    pub error: String,
    pub error_description: String,
    pub error_uri: String,
}

/// The short-lived service token minted from an access token.
#[derive(Debug)]
pub struct CopilotTokenResponse {
    pub token: String,
    pub expires_at: u64,
    pub refresh_in: u64,
}

impl Clone for AccessTokenResponse {
    fn clone(&self) -> (r: Self)
        ensures
            r == *self,
    {
        AccessTokenResponse {
            access_token: self.access_token.clone(),
            token_type: self.token_type.clone(),
            scope: self.scope.clone(),
        }
    }
}

impl Clone for CopilotTokenResponse {
    fn clone(&self) -> (r: Self)
        ensures
            r == *self,
    {
        CopilotTokenResponse {
            token: self.token.clone(),
            expires_at: self.expires_at,
            refresh_in: self.refresh_in,
        }
    }
}

/// Terminal failures of the credential flow.
#[derive(Debug)]
pub enum AuthError {
    /// The upstream answered with a non-success status.
    Upstream { status: u16, body: String },
    /// The upstream body could not be understood.
    Protocol { detail: String },
    /// The device code expired before the user approved it.
    ExpiredDeviceCode,
    /// The user denied the authorization request.
    AccessDenied,
    /// Polling ended with an unrecognized error code.
    Poll { code: String, description: String },
}

/// What the device-flow poll loop must do next.
#[derive(Debug)]
pub enum PollAction {
    /// Wait `seconds`, then poll again with `next_interval`.
    Sleep { seconds: u64, next_interval: u64 },
    /// The user approved: here is the access token.
    Success(AccessTokenResponse),
    /// Stop polling with this failure.
    Failure(AuthError),
}

/// What `serde_json` extracts from a device-code response body:
/// `(device_code, user_code, verification_uri, expires_in, interval)`.
pub uninterp spec fn device_code_of(body: Seq<char>) -> Option<
    (Seq<char>, Seq<char>, Seq<char>, u64, u64),
>;

/// What `serde_json` extracts from a poll error body:
/// `(error, error_description, error_uri)`.
pub uninterp spec fn access_error_of(body: Seq<char>) -> Option<(Seq<char>, Seq<char>, Seq<char>)>;

/// What `serde_json` extracts from a successful poll body:
/// `(access_token, token_type, scope)`.
pub uninterp spec fn access_token_of(body: Seq<char>) -> Option<(Seq<char>, Seq<char>, Seq<char>)>;

/// What `serde_json` extracts from a service-token exchange body:
/// `(token, expires_at, refresh_in)`.
pub uninterp spec fn copilot_token_of(body: Seq<char>) -> Option<(Seq<char>, u64, u64)>;

/// Relies on `serde_json::from_str` and the `Value` accessors: a device-code
/// response holds the five fields below, all required.
#[verifier::external_body]
fn parse_device_code(body: &str) -> (r: Option<DeviceCodeResponse>)
    ensures
        r is Some <==> device_code_of(body@) is Some,
        r matches Some(d) ==> (device_code_of(body@) matches Some(t) && d.device_code@ == t.0
            && d.user_code@ == t.1 && d.verification_uri@ == t.2 && d.expires_in == t.3
            && d.interval == t.4),
{
    let v: serde_json::Value = serde_json::from_str(body).ok()?;
    Some(DeviceCodeResponse {
        device_code: v.get("device_code")?.as_str()?.to_string(),
        user_code: v.get("user_code")?.as_str()?.to_string(),
        verification_uri: v.get("verification_uri")?.as_str()?.to_string(),
        expires_in: v.get("expires_in")?.as_u64()?,
        interval: v.get("interval")?.as_u64()?,
    })
}

/// Relies on `serde_json::from_str` and the `Value` accessors: a poll error
/// body holds `error`, `error_description` and `error_uri`, all required.
#[verifier::external_body]
fn parse_access_error(body: &str) -> (r: Option<AccessTokenError>)
    ensures
        r is Some <==> access_error_of(body@) is Some,
        r matches Some(e) ==> (access_error_of(body@) matches Some(t) && e.error@ == t.0
            && e.error_description@ == t.1 && e.error_uri@ == t.2),
{
    let v: serde_json::Value = serde_json::from_str(body).ok()?;
    Some(AccessTokenError {
        error: v.get("error")?.as_str()?.to_string(),
        error_description: v.get("error_description")?.as_str()?.to_string(),
        error_uri: v.get("error_uri")?.as_str()?.to_string(),
    })
}

/// Relies on `serde_json::from_str` and the `Value` accessors: a successful
/// poll body holds `access_token`, `token_type` and `scope`, all required.
#[verifier::external_body]
fn parse_access_token(body: &str) -> (r: Option<AccessTokenResponse>)
    ensures
        r is Some <==> access_token_of(body@) is Some,
        r matches Some(a) ==> (access_token_of(body@) matches Some(t) && a.access_token@ == t.0
            && a.token_type@ == t.1 && a.scope@ == t.2),
{
    let v: serde_json::Value = serde_json::from_str(body).ok()?;
    Some(AccessTokenResponse {
        access_token: v.get("access_token")?.as_str()?.to_string(),
        token_type: v.get("token_type")?.as_str()?.to_string(),
        scope: v.get("scope")?.as_str()?.to_string(),
    })
}

/// Relies on `serde_json::from_str` and the `Value` accessors: an exchange
/// body holds `token`, `expires_at` and `refresh_in`, all required.
#[verifier::external_body]
fn parse_copilot_token(body: &str) -> (r: Option<CopilotTokenResponse>)
    ensures
        r is Some <==> copilot_token_of(body@) is Some,
        r matches Some(c) ==> (copilot_token_of(body@) matches Some(t) && c.token@ == t.0
            && c.expires_at == t.1 && c.refresh_in == t.2),
{
    let v: serde_json::Value = serde_json::from_str(body).ok()?;
    Some(CopilotTokenResponse {
        token: v.get("token")?.as_str()?.to_string(),
        expires_at: v.get("expires_at")?.as_u64()?,
        refresh_in: v.get("refresh_in")?.as_u64()?,
    })
}

/// An HTTP status that counts as success.
pub open spec fn http_success(status: u16) -> bool {
    200 <= status < 300
}

/// The polling interval after a `slow_down` answer: five seconds more,
/// capped at the largest representable value.
pub open spec fn slow_down_interval(interval: u64) -> u64 {
    if interval + 5 <= u64::MAX {
        (interval + 5) as u64
    } else {
        u64::MAX
    }
}

/// Decide a device-code response: any non-success status is a hard failure
/// carrying status and body; a success body must parse into the five fields.
pub fn classify_device_code_response(status: u16, body: &str) -> (r: Result<
    DeviceCodeResponse,
    AuthError,
>)
    ensures
        match r {
            Ok(d) => http_success(status) && (device_code_of(body@) matches Some(t)
                && d.device_code@ == t.0 && d.user_code@ == t.1 && d.verification_uri@ == t.2
                && d.expires_in == t.3 && d.interval == t.4),
            Err(AuthError::Upstream { status: s, body: b }) => !http_success(status) && s == status
                && b@ == body@,
            Err(AuthError::Protocol { .. }) => http_success(status) && device_code_of(body@)
                is None,
            Err(_) => false,
        },
{
    if !(200 <= status && status < 300) {
        return Err(AuthError::Upstream { status, body: body.to_owned() });
    }
    match parse_device_code(body) {
        Some(d) => Ok(d),
        None => Err(
            AuthError::Protocol {
                detail: String::from_str("Failed to parse device code response"),
            },
        ),
    }
}

/// Decide one poll answer.  A body carrying an `error` field maps its code:
/// `authorization_pending` waits the current interval, `slow_down` waits and
/// adopts the increased interval, `expired_token` and `access_denied` end the
/// flow, and any other code fails with code and description.  A body without
/// an `error` field must parse as the access token.
pub fn classify_poll_response(body: &str, interval: u64) -> (r: PollAction)
    ensures
        match access_error_of(body@) {
            Some(e) => if e.0 == "authorization_pending"@ {
                r matches PollAction::Sleep { seconds, next_interval } && seconds == interval
                    && next_interval == interval
            } else if e.0 == "slow_down"@ {
                r matches PollAction::Sleep { seconds, next_interval } && seconds
                    == slow_down_interval(interval) && next_interval == slow_down_interval(interval)
            } else if e.0 == "expired_token"@ {
                r matches PollAction::Failure(AuthError::ExpiredDeviceCode)
            } else if e.0 == "access_denied"@ {
                r matches PollAction::Failure(AuthError::AccessDenied)
            } else {
                r matches PollAction::Failure(AuthError::Poll { code, description }) && code@ == e.0
                    && description@ == e.1
            },
            None => match access_token_of(body@) {
                Some(t) => r matches PollAction::Success(a) && a.access_token@ == t.0
                    && a.token_type@ == t.1 && a.scope@ == t.2,
                None => r matches PollAction::Failure(AuthError::Protocol { .. }),
            },
        },
{
    match parse_access_error(body) {
        Some(e) => {
            if str_eq(e.error.as_str(), "authorization_pending") {
                PollAction::Sleep { seconds: interval, next_interval: interval }
            } else if str_eq(e.error.as_str(), "slow_down") {
                let next: u64 = if interval <= u64::MAX - 5 {
                    interval + 5
                } else {
                    u64::MAX
                };
                PollAction::Sleep { seconds: next, next_interval: next }
            } else if str_eq(e.error.as_str(), "expired_token") {
                PollAction::Failure(AuthError::ExpiredDeviceCode)
            } else if str_eq(e.error.as_str(), "access_denied") {
                PollAction::Failure(AuthError::AccessDenied)
            } else {
                PollAction::Failure(
                    AuthError::Poll { code: e.error, description: e.error_description },
                )
            }
        },
        None => match parse_access_token(body) {
            Some(t) => PollAction::Success(t),
            None => PollAction::Failure(
                AuthError::Protocol {
                    detail: String::from_str("Failed to parse access token response"),
                },
            ),
        },
    }
}

/// Decide a service-token exchange response: any non-success status is a
/// hard failure carrying status and body; a success body must parse into the
/// token record.
pub fn classify_copilot_token_response(status: u16, body: &str) -> (r: Result<
    CopilotTokenResponse,
    AuthError,
>)
    ensures
        match r {
            Ok(c) => http_success(status) && (copilot_token_of(body@) matches Some(t) && c.token@
                == t.0 && c.expires_at == t.1 && c.refresh_in == t.2),
            Err(AuthError::Upstream { status: s, body: b }) => !http_success(status) && s == status
                && b@ == body@,
            Err(AuthError::Protocol { .. }) => http_success(status) && copilot_token_of(body@)
                is None,
            Err(_) => false,
        },
{
    if !(200 <= status && status < 300) {
        return Err(AuthError::Upstream { status, body: body.to_owned() });
    }
    match parse_copilot_token(body) {
        Some(c) => Ok(c),
        None => Err(
            AuthError::Protocol {
                detail: String::from_str("Failed to parse Copilot token response"),
            },
        ),
    }
}

} // verus!
