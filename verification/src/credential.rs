//! Verification of a candidate secret against a stored, salted digest.

use vstd::prelude::*;
use vstd::string::StringExecFns;
use vstd::utf8::{encode_utf8, encode_utf8_decode_utf8};

use crate::digest::{sha512, spec_sha512};
use crate::encoding::{base64_standard, encode_standard, lemma_base64_injective};
use crate::error::AuthError;

verus! {

/// The reference digest kept by the data store, with the salt that produced it.
pub struct AuthModel {
    pub hash: String,
    pub salt: String,
}

/// The candidate secret that a caller submits to log in.
pub struct LoginPayload {
    pub api_key: String,
}

/// The bytes that are digested: the secret first, the salt appended, as UTF-8.
pub open spec fn salted_secret(secret: Seq<char>, salt: Seq<char>) -> Seq<u8> {
    encode_utf8(secret + salt)
}

/// The text kept as the reference for `secret` under `salt`: the base64 form
/// of the SHA-512 digest of the salted secret.
pub open spec fn encoded_digest(secret: Seq<char>, salt: Seq<char>) -> Seq<char> {
    base64_standard(spec_sha512(salted_secret(secret, salt)))
}

/// Whether `secret` is accepted against the stored pair `(hash, salt)`.
pub open spec fn credential_matches(hash: Seq<char>, salt: Seq<char>, secret: Seq<char>) -> bool {
    hash == encoded_digest(secret, salt)
}

/// Whether two distinct inputs have the same SHA-512 digest.
pub open spec fn digests_collide(a: Seq<u8>, b: Seq<u8>) -> bool {
    a != b && spec_sha512(a) == spec_sha512(b)
}

/// Under one salt, different secrets are digested as different byte strings.
pub proof fn lemma_salted_secret_injective(a: Seq<char>, b: Seq<char>, salt: Seq<char>)
    requires
        salted_secret(a, salt) == salted_secret(b, salt),
    ensures
        a == b,
{
    encode_utf8_decode_utf8(a + salt);
    encode_utf8_decode_utf8(b + salt);
    let joined_a = a + salt;
    let joined_b = b + salt;
    assert(joined_a == joined_b);
    assert(a.len() == b.len());
    assert forall|i: int| 0 <= i < a.len() implies a[i] == b[i] by {
        assert(a[i] == joined_a[i]);
        assert(b[i] == joined_b[i]);
    }
    assert(a =~= b);
}

/// The reference computed from a secret and a salt accepts that secret.
pub proof fn lemma_matching_secret_verifies(secret: Seq<char>, salt: Seq<char>)
    ensures
        credential_matches(encoded_digest(secret, salt), salt, secret),
{
}

/// The reference computed from a secret and a salt rejects every other
/// secret, unless the two salted secrets collide under SHA-512.
pub proof fn lemma_wrong_secret_rejected(
    secret: Seq<char>,
    salt: Seq<char>,
    tampered: Seq<char>,
)
    requires
        tampered != secret,
        !digests_collide(salted_secret(secret, salt), salted_secret(tampered, salt)),
    ensures
        !credential_matches(encoded_digest(secret, salt), salt, tampered),
{
    if credential_matches(encoded_digest(secret, salt), salt, tampered) {
        lemma_base64_injective(
            spec_sha512(salted_secret(secret, salt)),
            spec_sha512(salted_secret(tampered, salt)),
        );
        lemma_salted_secret_injective(secret, tampered, salt);
    }
}

/// Compares a freshly computed digest text with the stored one, byte for
/// byte, and stops at the first difference.
pub fn check_digest(stored: &str, computed: &str) -> (res: Result<(), AuthError>)
    ensures
        res is Ok <==> stored@ == computed@,
        res is Err ==> res == Err::<(), AuthError>(AuthError::AuthenticationError),
{
    let left = stored.as_bytes();
    let right = computed.as_bytes();
    let n = left.len();
    if right.len() != n {
        return Err(AuthError::AuthenticationError);
    }
    let mut i: usize = 0;
    while i < n
        invariant
            i <= n,
            n == left@.len(),
            n == right@.len(),
            left@ == encode_utf8(stored@),
            right@ == encode_utf8(computed@),
            forall|j: int| 0 <= j < i ==> left@[j] == right@[j],
        decreases n - i,
    {
        if left[i] != right[i] {
            return Err(AuthError::AuthenticationError);
        }
        i += 1;
    }
    proof {
        assert(left@ =~= right@);
        encode_utf8_decode_utf8(stored@);
        encode_utf8_decode_utf8(computed@);
    }
    Ok(())
}

/// Accepts `password` iff the base64 text of SHA-512 over `password ++ salt`
/// equals `hash` character for character.
pub fn verify(hash: &str, salt: &str, password: &str) -> (res: Result<(), AuthError>)
    ensures
        res is Ok <==> credential_matches(hash@, salt@, password@),
        res is Err ==> res == Err::<(), AuthError>(AuthError::AuthenticationError),
{
    let mut salted = String::from_str(password);
    salted.append(salt);
    let digest = sha512(salted.as_str().as_bytes());
    let user_hash = encode_standard(digest.as_slice());
    check_digest(hash, user_hash.as_str())
}

} // verus!
