//! The outcome taxonomy of an authentication check, and its collapse onto
//! the wire status that the hosting service reports.

use vstd::prelude::*;

verus! {

/// The status a response carries.
#[derive(Debug, Clone, Copy, PartialEq, Eq, Structural)]
pub enum Status {
    Okay,
    InvalidCredentials,
    Error,
}

/// Why an authentication check failed: the header never had the right shape,
/// a segment of a well-shaped payload would not decode, or the decoded
/// credential matches no directory entry.
#[derive(Debug, Clone, Copy, PartialEq, Eq, Structural)]
pub enum AuthError {
    MalformedHeader,
    MalformedEncoding,
    NoMatch,
}

/// The collapsed status of a failure: a credential that matches no entry is
/// `InvalidCredentials`; malformed input of either kind is `Error`.
pub open spec fn status_of_error(e: AuthError) -> Status {
    match e {
        AuthError::NoMatch => Status::InvalidCredentials,
        AuthError::MalformedHeader => Status::Error,
        AuthError::MalformedEncoding => Status::Error,
    }
}

/// Collapse a failure onto the status the hosting service reports.
pub fn error_status(e: &AuthError) -> (s: Status)
    ensures
        s == status_of_error(*e),
{
    match e {
        AuthError::NoMatch => Status::InvalidCredentials,
        AuthError::MalformedHeader => Status::Error,
        AuthError::MalformedEncoding => Status::Error,
    }
}

} // verus!
