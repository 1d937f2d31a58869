//! SHA-512, computed by the `sha2` crate.

use vstd::prelude::*;

verus! {

/// Number of bytes in a SHA-512 digest.
pub const DIGEST_LEN: usize = 64;

/// The SHA-512 digest of `data`. The function is not defined here: it stands
/// for whatever `sha2` computes, and only its determinism is relied upon.
pub uninterp spec fn spec_sha512(data: Seq<u8>) -> Seq<u8>;

/// Calls `sha2::Sha512::digest`. Trusted: the result is the SHA-512 digest of
/// `data`, which is 64 bytes long whatever the input.
#[verifier::external_body]
pub(crate) fn sha512(data: &[u8]) -> (res: Vec<u8>)
    ensures
        res@ == spec_sha512(data@),
        res@.len() == DIGEST_LEN,
{
    <sha2::Sha512 as sha2::Digest>::digest(data).to_vec()
}

} // verus!
