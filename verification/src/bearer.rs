//! The `Authorization: Bearer <token>` header of a protected route.

use vstd::prelude::*;
use vstd::string::{is_ascii_spec_bytes, StrSliceExecFns};

use crate::error::AuthError;
use crate::token::{spec_hs256_token, validate, Claims, Keys};

verus! {

/// The scheme and the space that a bearer header starts with.
pub open spec fn bearer_prefix() -> Seq<char> {
    "Bearer "@
}

/// A character that may stand in a header value read as text: printable
/// ASCII, the space, or the tab.
pub open spec fn is_visible_ascii(c: char) -> bool {
    (' ' <= c && c <= '~') || c == '\t'
}

/// Whether `header` is a bearer header: the scheme, written exactly, one
/// space, and visible ASCII throughout.
pub open spec fn is_bearer_header(header: Seq<char>) -> bool {
    &&& header.len() >= 7
    &&& header.subrange(0, 7) == bearer_prefix()
    &&& forall|i: int| 0 <= i < header.len() ==> is_visible_ascii(#[trigger] header[i])
}

/// The token of a bearer header: all that follows the first seven
/// characters, which may be empty. `None` for any other header.
pub open spec fn spec_bearer_token(header: Seq<char>) -> Option<Seq<char>> {
    if is_bearer_header(header) {
        Some(header.subrange(7, header.len() as int))
    } else {
        None
    }
}

/// The scheme, a space and a token of visible ASCII make a bearer header
/// that carries exactly that token.
pub proof fn lemma_bearer_header_carries_token(token: Seq<char>)
    requires
        forall|i: int| 0 <= i < token.len() ==> is_visible_ascii(#[trigger] token[i]),
    ensures
        spec_bearer_token(bearer_prefix() + token) == Some(token),
{
    reveal_strlit("Bearer ");
    let header = bearer_prefix() + token;
    assert(header.subrange(0, 7) =~= bearer_prefix());
    assert(header.subrange(7, header.len() as int) =~= token);
    assert forall|i: int| 0 <= i < header.len() implies is_visible_ascii(#[trigger] header[i]) by {
        if i >= 7 {
            assert(header[i] == token[i - 7]);
        }
    }
}

fn is_visible_byte(b: u8) -> (res: bool)
    ensures
        res == is_visible_ascii(b as char),
{
    // Space to tilde, or the tab.
    (0x20 <= b && b <= 0x7e) || b == 0x09
}

/// Extracts the token from the value of an `Authorization` header.
pub fn bearer_token(header: &str) -> (res: Option<&str>)
    ensures
        match spec_bearer_token(header@) {
            Some(token) => res matches Some(t) && t@ == token,
            None => res is None,
        },
{
    if !header.is_ascii() {
        proof {
            let i = choose|i: int|
                0 <= i < header@.len() && !('\0' <= #[trigger] header@[i] <= '\u{7f}');
            assert(!is_visible_ascii(header@[i]));
        }
        return None;
    }
    let bytes = header.as_bytes();
    let n = bytes.len();
    proof {
        is_ascii_spec_bytes(header);
        reveal_strlit("Bearer ");
        assert(bytes@.len() == header@.len());
        assert forall|i: int| 0 <= i < n implies bytes@[i] as char == #[trigger] header@[i] by {
            assert('\0' <= header@[i] <= '\u{7f}');
            assert(bytes@[i] == header@[i] as u8);
        }
    }
    if n < 7 {
        return None;
    }
    // "Bearer " in ASCII.
    if bytes[0] != 0x42 || bytes[1] != 0x65 || bytes[2] != 0x61 || bytes[3] != 0x72 || bytes[4]
        != 0x65 || bytes[5] != 0x72 || bytes[6] != 0x20 {
        proof {
            let p = header@.subrange(0, 7);
            assert(p[0] == header@[0] && p[1] == header@[1] && p[2] == header@[2] && p[3]
                == header@[3] && p[4] == header@[4] && p[5] == header@[5] && p[6] == header@[6]);
        }
        return None;
    }
    assert(header@.subrange(0, 7) =~= bearer_prefix());
    let mut i: usize = 0;
    while i < n
        invariant
            i <= n,
            n == bytes@.len(),
            n == header@.len(),
            forall|j: int| 0 <= j < n ==> bytes@[j] as char == #[trigger] header@[j],
            forall|j: int| 0 <= j < i ==> is_visible_ascii(#[trigger] header@[j]),
        decreases n - i,
    {
        if !is_visible_byte(bytes[i]) {
            assert(!is_visible_ascii(header@[i as int]));
            return None;
        }
        i += 1;
    }
    Some(header.substring_ascii(7, n))
}

/// The token that a request presents: that of its `Authorization` header,
/// where it has one and it is a bearer header.
pub open spec fn presented_token(header: Option<&str>) -> Option<Seq<char>> {
    match header {
        Some(h) => spec_bearer_token(h@),
        None => None,
    }
}

impl Claims {
    /// The claims that a request may act under: those of the token in its
    /// `Authorization` header. A missing header, a header that is no bearer
    /// header, and a token that is not accepted are all refused; a token that
    /// was issued under the same keys is never accepted with other claims
    /// than its own.
    pub fn from_authorization_header(header: Option<&str>, keys: &Keys) -> (res: Result<
        Claims,
        AuthError,
    >)
        ensures
            res matches Err(e) ==> e == AuthError::AuthenticationError,
            presented_token(header) is None ==> res is Err,
            forall|claims: Claims|
                presented_token(header) is Some && #[trigger] spec_hs256_token(
                    claims.exp,
                    keys.secret(),
                ) == presented_token(header) ==> (res matches Ok(found) ==> found == claims),
    {
        match header {
            None => Err(AuthError::AuthenticationError),
            Some(h) => match bearer_token(h) {
                None => Err(AuthError::AuthenticationError),
                Some(token) => validate(token, keys),
            },
        }
    }
}

} // verus!
