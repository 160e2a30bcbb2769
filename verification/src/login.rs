//! Decisions of the login path.
//!
//! The storage lookup and the credential check themselves are outside
//! collaborators; these functions take their outcomes as plain values and
//! decide the response, so the branching is verified for every outcome the
//! collaborators can produce.

use vstd::prelude::*;
use vstd::string::StringExecFns;

use crate::errors::RecordError;
use crate::models::Doctor;
use crate::response::RecordResponse;

verus! {

/// Seconds a freshly issued login token stays valid.
pub const TOKEN_VALIDITY_SECS: i64 = 10800;

/// Decides a login attempt from the account lookup's outcome and from
/// whether the password matched: no account means `UserNotFound`, a failed
/// match means `BadCredentials`, otherwise the account holder's name is
/// returned.
pub fn login_outcome(doctor: Option<Doctor>, password_ok: bool) -> (r: Result<
    String,
    RecordError,
>)
    ensures
        match doctor {
            None => r == Err::<String, RecordError>(RecordError::UserNotFound),
            Some(d) => if password_ok {
                r == Ok::<String, RecordError>(d.name)
            } else {
                r == Err::<String, RecordError>(RecordError::BadCredentials)
            },
        },
{
    match doctor {
        None => Err(RecordError::UserNotFound),
        Some(d) => {
            if password_ok {
                Ok(d.name)
            } else {
                Err(RecordError::BadCredentials)
            }
        },
    }
}

/// Renders a login outcome as the transport-layer response: the name on
/// success, the failure kind's description otherwise.
pub fn login_response(outcome: Result<String, RecordError>) -> (resp: RecordResponse)
    ensures
        match outcome {
            Ok(name) => resp == RecordResponse::LoginSuccess(name),
            Err(e) => resp matches RecordResponse::LoginFailed(m) && m@ == e.message_spec(),
        },
{
    match outcome {
        Ok(name) => RecordResponse::LoginSuccess(name),
        Err(e) => RecordResponse::LoginFailed(String::from_str(e.message())),
    }
}

/// When a token issued now expires: the current timestamp in seconds moved
/// forward by the validity window, unless that would overflow.
pub fn token_expiry(now_secs: i64) -> (r: Option<i64>)
    ensures
        match r {
            Some(t) => t == now_secs + TOKEN_VALIDITY_SECS,
            None => now_secs + TOKEN_VALIDITY_SECS > i64::MAX,
        },
{
    if now_secs <= i64::MAX - TOKEN_VALIDITY_SECS {
        Some(now_secs + TOKEN_VALIDITY_SECS)
    } else {
        None
    }
}

} // verus!
