//! The single failure kind of the authentication flow.

use vstd::prelude::*;

verus! {

/// Why an authentication step failed. Every cause collapses into one kind, so
/// that a caller never learns whether the account, the secret or the token was
/// at fault.
#[derive(Clone, Copy, Debug, PartialEq, Eq, Structural)]
pub enum AuthError {
    AuthenticationError,
}

impl AuthError {
    /// The text a boundary layer shows for this error.
    pub fn message(&self) -> (res: &'static str)
        ensures
            res@ == "authentication failed"@,
    {
        "authentication failed"
    }
}

} // verus!
