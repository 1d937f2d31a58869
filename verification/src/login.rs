//! The login step: a verified API key is exchanged for a bearer token.

use vstd::prelude::*;
use vstd::string::StringExecFns;

use crate::credential::{credential_matches, verify, AuthModel, LoginPayload};
use crate::error::AuthError;
use crate::token::{issue, spec_hs256_token, Claims, Keys};

verus! {

/// What a successful login answers: the token and the label of its kind.
#[derive(Debug)]
pub struct AuthBody {
    access_token: String,
    token_type: String,
}

/// The two texts of an `AuthBody`.
pub ghost struct AuthBodyView {
    pub access_token: Seq<char>,
    pub token_type: Seq<char>,
}

impl View for AuthBody {
    type V = AuthBodyView;

    closed spec fn view(&self) -> AuthBodyView {
        AuthBodyView { access_token: self.access_token@, token_type: self.token_type@ }
    }
}

/// The label under which every token is presented.
pub open spec fn bearer_label() -> Seq<char> {
    "Bearer"@
}

impl AuthBody {
    /// Wraps `access_token` with the fixed label.
    pub fn new(access_token: String) -> (body: AuthBody)
        ensures
            body@.access_token == access_token@,
            body@.token_type == bearer_label(),
    {
        AuthBody { access_token, token_type: String::from_str("Bearer") }
    }

    /// The token.
    pub fn access_token(&self) -> (res: &str)
        ensures
            res@ == self@.access_token,
    {
        self.access_token.as_str()
    }

    /// The label of the token's kind.
    pub fn token_type(&self) -> (res: &str)
        ensures
            res@ == self@.token_type,
    {
        self.token_type.as_str()
    }
}

/// The token that a login is answered with, or `None` where it is refused:
/// the record must have been found, the submitted key must match it, and the
/// signing must succeed.
pub open spec fn login_token(
    secret: Seq<u8>,
    expiry: u32,
    stored: Option<&AuthModel>,
    payload: &LoginPayload,
) -> Option<Seq<char>> {
    match stored {
        Some(record) => if credential_matches(record.hash@, record.salt@, payload.api_key@) {
            spec_hs256_token(expiry, secret)
        } else {
            None
        },
        None => None,
    }
}

/// Answers a login attempt. `stored` is the record that the data store holds
/// for the account, `None` where the lookup failed; `expiry` is the time that
/// the issued token expires at.
pub fn login(keys: &Keys, expiry: u32, stored: Option<&AuthModel>, payload: &LoginPayload) -> (res:
    Result<AuthBody, AuthError>)
    ensures
        match login_token(keys.secret(), expiry, stored, payload) {
            Some(token) => res matches Ok(body) && body@.access_token == token && body@.token_type
                == bearer_label(),
            None => res matches Err(e) && e == AuthError::AuthenticationError,
        },
{
    let record = match stored {
        Some(record) => record,
        None => { return Err(AuthError::AuthenticationError); },
    };
    match verify(record.hash.as_str(), record.salt.as_str(), payload.api_key.as_str()) {
        Ok(()) => {},
        Err(e) => { return Err(e); },
    }
    let claims = Claims { exp: expiry };
    match issue(&claims, keys) {
        Ok(token) => Ok(AuthBody::new(token)),
        Err(e) => Err(e),
    }
}

} // verus!
