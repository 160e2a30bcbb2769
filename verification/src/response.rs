//! The outcome shape handed back to the transport layer.

use vstd::prelude::*;

verus! {

/// Outcome of a login attempt as the transport layer reports it: the
/// account holder's name on success, a failure description otherwise.
#[derive(Debug)]
pub enum RecordResponse {
    LoginSuccess(String),
    LoginFailed(String),
}

} // verus!
