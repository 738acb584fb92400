//! Trusted access to the clock and to calendar formatting.
//!
//! Nothing can be promised about the value of the current time, so the two
//! `now` wrappers carry no contract; every function whose result depends on
//! the time takes it as an argument and is verified for all values of it.

use vstd::prelude::*;

verus! {

/// The RFC 3339 rendering of a UNIX timestamp in UTC, as `chrono`'s
/// `to_rfc3339` produces it.  The result is a function of the timestamp
/// alone, so it is only named here; the wrapper below applies the name.
pub uninterp spec fn rfc3339_utc(secs: u64) -> Seq<char>;

/// Relies on std's `SystemTime::now` and `duration_since`: seconds since the
/// UNIX epoch, or zero if the clock reads before the epoch.
#[verifier::external_body]
pub fn unix_now() -> u64 {
    match std::time::SystemTime::now().duration_since(std::time::UNIX_EPOCH) {
        Ok(d) => d.as_secs(),
        Err(_) => 0,
    }
}

/// Relies on `chrono::Utc::now` and `to_rfc3339`: the current moment,
/// formatted as RFC 3339.  The value depends on the clock, so nothing is
/// promised of it.
#[verifier::external_body]
pub fn now_rfc3339() -> String {
    chrono::Utc::now().to_rfc3339()
}

/// Relies on `chrono::DateTime::from_timestamp` and `to_rfc3339`:
/// `from_timestamp` returns `None` for an out-of-range number of seconds and
/// otherwise the UTC date-time of the timestamp, whose RFC 3339 rendering is
/// a function of the timestamp alone.
#[verifier::external_body]
pub fn rfc3339_of_timestamp(secs: u64) -> (r: Option<String>)
    ensures
        match r {
            Some(s) => s@ == rfc3339_utc(secs),
            None => true,
        },
{
    i64::try_from(secs).ok().and_then(|s| chrono::DateTime::from_timestamp(s, 0)).map(
        |d| d.to_rfc3339(),
    )
}

} // verus!
