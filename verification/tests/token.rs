use dashboard_auth::{claims_from_decoded, issue, token_from_signed, validate};
use dashboard_auth::{AuthError, Claims, Keys};
use jsonwebtoken::errors::{Error, ErrorKind};

const FAR: u32 = u32::MAX;

fn signed_with(secret: &[u8], claims: &serde_json::Map<String, serde_json::Value>) -> String {
    jsonwebtoken::encode(
        &jsonwebtoken::Header::default(),
        claims,
        &jsonwebtoken::EncodingKey::from_secret(secret),
    )
    .unwrap()
}

fn one_claim(name: &str, value: serde_json::Value) -> serde_json::Map<String, serde_json::Value> {
    let mut claims = serde_json::Map::new();
    claims.insert(name.to_string(), value);
    claims
}

#[test]
fn issue_writes_the_hs256_token_of_the_expiry() {
    let keys = Keys::new(b"secret");
    assert_eq!(
        issue(&Claims { exp: 2000000000 }, &keys),
        Ok("eyJ0eXAiOiJKV1QiLCJhbGciOiJIUzI1NiJ9.eyJleHAiOjIwMDAwMDAwMDB9.\
            g4YZ4nQl3_p2gIA76Y4Q7BU1RqSYh-u1veS379vraXQ"
            .to_string())
    );
    assert_eq!(
        issue(&Claims { exp: 0 }, &Keys::new(b"")),
        Ok("eyJ0eXAiOiJKV1QiLCJhbGciOiJIUzI1NiJ9.eyJleHAiOjB9.\
            p3rPY9UL3tM5ofkodgCDjqyt7q_sVgHZTC4Vfz-SZlE"
            .to_string())
    );
    assert_eq!(
        issue(&Claims { exp: u32::MAX }, &Keys::new(b"another secret")),
        Ok("eyJ0eXAiOiJKV1QiLCJhbGciOiJIUzI1NiJ9.eyJleHAiOjQyOTQ5NjcyOTV9.\
            in4aOyEiafzn0levHyQ8Z5YVxgaUXYVZUVpZQnHxci8"
            .to_string())
    );
}

#[test]
fn issue_is_a_function_of_expiry_and_secret() {
    let keys = Keys::new(b"k1");
    let again = Keys::new(b"k1");
    let other = Keys::new(b"k2");
    let a = issue(&Claims { exp: FAR }, &keys).unwrap();
    assert_eq!(issue(&Claims { exp: FAR }, &keys).unwrap(), a);
    assert_eq!(issue(&Claims { exp: FAR }, &again).unwrap(), a);
    assert_ne!(issue(&Claims { exp: FAR }, &other).unwrap(), a);
    assert_ne!(issue(&Claims { exp: FAR - 1 }, &keys).unwrap(), a);
}

#[test]
fn validate_returns_the_issued_claims() {
    let keys = Keys::new(b"round trip");
    for exp in [FAR, FAR - 1, 4000000000] {
        let claims = Claims { exp };
        let token = issue(&claims, &keys).unwrap();
        assert_eq!(validate(&token, &keys), Ok(claims));
    }
}

#[test]
fn validate_refuses_an_expired_token() {
    let keys = Keys::new(b"expiry");
    for exp in [0, 1, 1000000000] {
        let token = issue(&Claims { exp }, &keys).unwrap();
        assert_eq!(validate(&token, &keys), Err(AuthError::AuthenticationError));
    }
}

#[test]
fn validate_refuses_a_token_changed_at_any_place() {
    let keys = Keys::new(b"tamper");
    let token = issue(&Claims { exp: FAR }, &keys).unwrap();
    assert_eq!(validate(&token, &keys), Ok(Claims { exp: FAR }));
    let bytes = token.as_bytes();
    for at in 0..bytes.len() {
        for replacement in [b'A', b'B', b'.', b'_'] {
            if bytes[at] == replacement {
                continue;
            }
            let mut changed = bytes.to_vec();
            changed[at] = replacement;
            let changed = String::from_utf8(changed).unwrap();
            assert_eq!(
                validate(&changed, &keys),
                Err(AuthError::AuthenticationError),
                "place {at}"
            );
        }
    }
}

#[test]
fn validate_refuses_a_token_cut_or_extended() {
    let keys = Keys::new(b"length");
    let token = issue(&Claims { exp: FAR }, &keys).unwrap();
    for end in 0..token.len() {
        assert_eq!(
            validate(&token[..end], &keys),
            Err(AuthError::AuthenticationError)
        );
    }
    let longer = format!("{token}A");
    assert_eq!(validate(&longer, &keys), Err(AuthError::AuthenticationError));
    let spaced = format!(" {token}");
    assert_eq!(validate(&spaced, &keys), Err(AuthError::AuthenticationError));
}

#[test]
fn validate_refuses_a_token_of_another_secret() {
    let token = issue(&Claims { exp: FAR }, &Keys::new(b"mine")).unwrap();
    assert_eq!(
        validate(&token, &Keys::new(b"yours")),
        Err(AuthError::AuthenticationError)
    );
    assert_eq!(
        validate(&token, &Keys::new(b"")),
        Err(AuthError::AuthenticationError)
    );
    assert_eq!(validate(&token, &Keys::new(b"mine")), Ok(Claims { exp: FAR }));
}

#[test]
fn validate_refuses_what_is_no_token() {
    let keys = Keys::new(b"shape");
    for text in ["", ".", "..", "a.b.c", "abc", "Bearer x", "a.b.c.d"] {
        assert_eq!(validate(text, &keys), Err(AuthError::AuthenticationError));
    }
}

#[test]
fn validate_ignores_other_claims() {
    let keys = Keys::new(b"more");
    let mut claims = one_claim("exp", serde_json::Value::from(4000000000u64));
    claims.insert("sub".to_string(), serde_json::Value::from("someone"));
    claims.insert("level".to_string(), serde_json::Value::from(3));
    let token = signed_with(b"more", &claims);
    assert_eq!(validate(&token, &keys), Ok(Claims { exp: 4000000000 }));
}

#[test]
fn validate_refuses_an_expiry_beyond_32_bits() {
    let keys = Keys::new(b"wide");
    let at_limit = signed_with(b"wide", &one_claim("exp", serde_json::Value::from(4294967295u64)));
    assert_eq!(validate(&at_limit, &keys), Ok(Claims { exp: u32::MAX }));
    let beyond = signed_with(b"wide", &one_claim("exp", serde_json::Value::from(4294967296u64)));
    assert_eq!(validate(&beyond, &keys), Err(AuthError::AuthenticationError));
    let huge = signed_with(b"wide", &one_claim("exp", serde_json::Value::from(u64::MAX)));
    assert_eq!(validate(&huge, &keys), Err(AuthError::AuthenticationError));
}

#[test]
fn validate_refuses_an_expiry_that_is_no_whole_number() {
    let keys = Keys::new(b"kind");
    let fraction = signed_with(b"kind", &one_claim("exp", serde_json::Value::from(4000000000.5f64)));
    assert_eq!(validate(&fraction, &keys), Err(AuthError::AuthenticationError));
    let text = signed_with(b"kind", &one_claim("exp", serde_json::Value::from("4000000000")));
    assert_eq!(validate(&text, &keys), Err(AuthError::AuthenticationError));
    let negative = signed_with(b"kind", &one_claim("exp", serde_json::Value::from(-1)));
    assert_eq!(validate(&negative, &keys), Err(AuthError::AuthenticationError));
}

#[test]
fn validate_refuses_a_token_without_expiry() {
    let keys = Keys::new(b"none");
    let token = signed_with(b"none", &one_claim("sub", serde_json::Value::from("someone")));
    assert_eq!(validate(&token, &keys), Err(AuthError::AuthenticationError));
    let empty = signed_with(b"none", &serde_json::Map::new());
    assert_eq!(validate(&empty, &keys), Err(AuthError::AuthenticationError));
}

#[test]
fn validate_refuses_another_algorithm() {
    let keys = Keys::new(b"alg");
    let token = jsonwebtoken::encode(
        &jsonwebtoken::Header::new(jsonwebtoken::Algorithm::HS512),
        &one_claim("exp", serde_json::Value::from(4000000000u64)),
        &jsonwebtoken::EncodingKey::from_secret(b"alg"),
    )
    .unwrap();
    assert_eq!(validate(&token, &keys), Err(AuthError::AuthenticationError));
}

#[test]
fn claims_from_decoded_maps_each_outcome() {
    assert_eq!(claims_from_decoded(Ok(Some(0))), Ok(Claims { exp: 0 }));
    assert_eq!(claims_from_decoded(Ok(Some(5))), Ok(Claims { exp: 5 }));
    assert_eq!(
        claims_from_decoded(Ok(Some(4294967295))),
        Ok(Claims { exp: u32::MAX })
    );
    assert_eq!(
        claims_from_decoded(Ok(Some(4294967296))),
        Err(AuthError::AuthenticationError)
    );
    assert_eq!(
        claims_from_decoded(Ok(Some(u64::MAX))),
        Err(AuthError::AuthenticationError)
    );
    assert_eq!(claims_from_decoded(Ok(None)), Err(AuthError::AuthenticationError));
    assert_eq!(
        claims_from_decoded(Err(Error::from(ErrorKind::ExpiredSignature))),
        Err(AuthError::AuthenticationError)
    );
    assert_eq!(
        claims_from_decoded(Err(Error::from(ErrorKind::InvalidSignature))),
        Err(AuthError::AuthenticationError)
    );
}

#[test]
fn token_from_signed_maps_each_outcome() {
    assert_eq!(token_from_signed(Ok("a.b.c".to_string())), Ok("a.b.c".to_string()));
    assert_eq!(token_from_signed(Ok(String::new())), Ok(String::new()));
    assert_eq!(
        token_from_signed(Err(Error::from(ErrorKind::InvalidAlgorithm))),
        Err(AuthError::AuthenticationError)
    );
}
