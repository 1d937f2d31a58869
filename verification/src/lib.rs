//! Dashboard login: verification of a salted API-key digest and stateless,
//! signed bearer tokens.
//!
//! A login compares the base64 text of SHA-512 over `secret ++ salt` with the
//! stored reference, and on a match signs a claim set that carries only an
//! expiry. Protected routes present the token again in an
//! `Authorization: Bearer <token>` header.

pub mod error;
pub mod digest;
pub mod encoding;
pub mod credential;
pub mod token;
pub mod bearer;
pub mod login;

pub use bearer::bearer_token;
pub use credential::{check_digest, verify, AuthModel, LoginPayload};
pub use error::AuthError;
pub use login::{login, AuthBody};
pub use token::{claims_from_decoded, issue, token_from_signed, validate, Claims, Keys};
