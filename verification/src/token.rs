//! Signed, stateless bearer tokens that carry an expiry and nothing else.
//!
//! Signing and checking are done by the `jsonwebtoken` crate with its default
//! header and validation (HS256). What this module decides is which key
//! material goes in, and what each outcome becomes.

use vstd::prelude::*;
use vstd::slice::slice_to_vec;

use crate::error::AuthError;

verus! {

/// The payload of a token: the time, in seconds since the epoch, after which
/// the token is no longer accepted.
#[derive(Clone, Copy, Debug, PartialEq, Eq, Structural)]
pub struct Claims {
    pub exp: u32,
}

/// The key material for signing and for checking tokens.
pub struct Keys {
    encoding: Vec<u8>,
    decoding: Vec<u8>,
}

impl Keys {
    /// Both halves come from one secret.
    #[verifier::type_invariant]
    spec fn same_secret(&self) -> bool {
        self.encoding@ == self.decoding@
    }

    /// The secret that the pair was derived from.
    pub closed spec fn secret(&self) -> Seq<u8> {
        self.encoding@
    }

    /// Derives the signing and the checking key from `secret`.
    pub fn new(secret: &[u8]) -> (keys: Keys)
        ensures
            keys.secret() == secret@,
    {
        Keys { encoding: slice_to_vec(secret), decoding: slice_to_vec(secret) }
    }
}

/// `jsonwebtoken::errors::Error`, carried through unread: verified code only
/// tells it from a success.
#[verifier::external_type_specification]
#[verifier::external_body]
pub struct ExTokenError(jsonwebtoken::errors::Error);

/// The HS256 token that `jsonwebtoken` writes for the claim set
/// `{"exp": exp}` under `secret`, or `None` where it reports a failure.
pub uninterp spec fn spec_hs256_token(exp: u32, secret: Seq<u8>) -> Option<Seq<char>>;

/// Calls `jsonwebtoken::encode` with the default header, the claim set
/// `{"exp": exp}` and an HMAC key made of `secret`. Trusted: the outcome is a
/// function of `exp` and `secret` alone.
#[verifier::external_body]
pub(crate) fn sign_expiry(exp: u32, secret: &[u8]) -> (res: Result<
    String,
    jsonwebtoken::errors::Error,
>)
    ensures
        match res {
            Ok(token) => spec_hs256_token(exp, secret@) == Some(token@),
            Err(_) => spec_hs256_token(exp, secret@) is None,
        },
{
    let mut claims = std::collections::BTreeMap::new();
    claims.insert("exp", exp);
    let key = jsonwebtoken::EncodingKey::from_secret(secret);
    jsonwebtoken::encode(&jsonwebtoken::Header::default(), &claims, &key)
}

/// Calls `jsonwebtoken::decode` with the default validation and an HMAC key
/// made of `secret`, and hands out the `exp` claim where it is a non-negative
/// integer. Whether the token is accepted depends on the clock, which the
/// crate reads itself and expects not to stand before 1970. Trusted: a token
/// that was written for an expiry under the same secret, where it is
/// accepted, gives that expiry back.
#[verifier::external_body]
pub(crate) fn decode_expiry(token: &str, secret: &[u8]) -> (res: Result<
    Option<u64>,
    jsonwebtoken::errors::Error,
>)
    ensures
        forall|exp: u32| #[trigger]
            spec_hs256_token(exp, secret@) == Some(token@) ==> (res matches Ok(found) ==> found
                == Some(exp as u64)),
{
    let key = jsonwebtoken::DecodingKey::from_secret(secret);
    let validation = jsonwebtoken::Validation::default();
    let data = jsonwebtoken::decode::<serde_json::Value>(token, &key, &validation)?;
    Ok(data.claims["exp"].as_u64())
}

/// What a signing outcome becomes: the token, or the one error kind.
pub open spec fn token_of_signed(outcome: Result<String, jsonwebtoken::errors::Error>) -> Result<
    Seq<char>,
    AuthError,
> {
    match outcome {
        Ok(token) => Ok(token@),
        Err(_) => Err(AuthError::AuthenticationError),
    }
}

/// Maps a signing outcome to the library's result.
pub fn token_from_signed(outcome: Result<String, jsonwebtoken::errors::Error>) -> (res: Result<
    String,
    AuthError,
>)
    ensures
        match token_of_signed(outcome) {
            Ok(token) => res matches Ok(t) && t@ == token,
            Err(e) => res == Err::<String, AuthError>(e),
        },
{
    match outcome {
        Ok(token) => Ok(token),
        Err(_) => Err(AuthError::AuthenticationError),
    }
}

/// Signs `claims`. The token is the one that `jsonwebtoken` writes for the
/// expiry under the pair's secret; a signing failure is an authentication
/// error.
pub fn issue(claims: &Claims, keys: &Keys) -> (res: Result<String, AuthError>)
    ensures
        match spec_hs256_token(claims.exp, keys.secret()) {
            Some(token) => res matches Ok(t) && t@ == token,
            None => res == Err::<String, AuthError>(AuthError::AuthenticationError),
        },
{
    token_from_signed(sign_expiry(claims.exp, keys.encoding.as_slice()))
}

/// What a decoding outcome becomes: the claims where the token was accepted
/// and its expiry fits 32 bits, the one error kind otherwise.
pub open spec fn claims_of_decoded(
    outcome: Result<Option<u64>, jsonwebtoken::errors::Error>,
) -> Result<Claims, AuthError> {
    match outcome {
        Ok(Some(exp)) => if exp <= u32::MAX {
            Ok(Claims { exp: exp as u32 })
        } else {
            Err(AuthError::AuthenticationError)
        },
        _ => Err(AuthError::AuthenticationError),
    }
}

/// Maps a decoding outcome to the library's result.
pub fn claims_from_decoded(outcome: Result<Option<u64>, jsonwebtoken::errors::Error>) -> (res:
    Result<Claims, AuthError>)
    ensures
        res == claims_of_decoded(outcome),
{
    match outcome {
        Ok(Some(exp)) => if exp <= u32::MAX as u64 {
            Ok(Claims { exp: exp as u32 })
        } else {
            Err(AuthError::AuthenticationError)
        },
        _ => Err(AuthError::AuthenticationError),
    }
}

/// Checks `token` against the pair's secret and the clock, and hands out its
/// claims. Whether a token is accepted is decided by `jsonwebtoken` at the
/// time of the call; every refusal is the one error kind. A token that
/// `issue` wrote under the same keys is never accepted with other claims
/// than those it was issued for.
pub fn validate(token: &str, keys: &Keys) -> (res: Result<Claims, AuthError>)
    ensures
        res matches Err(e) ==> e == AuthError::AuthenticationError,
        forall|claims: Claims| #[trigger]
            spec_hs256_token(claims.exp, keys.secret()) == Some(token@) ==> (res matches Ok(found)
                ==> found == claims),
{
    proof {
        use_type_invariant(keys);
    }
    claims_from_decoded(decode_expiry(token, keys.decoding.as_slice()))
}

} // verus!
