//! SHA-256 through OpenSSL.
use vstd::prelude::*;

verus! {

/// OpenSSL's error stack, returned by its failing calls.
#[verifier::external_type_specification]
#[verifier::external_body]
pub struct ExErrorStack(openssl::error::ErrorStack);

/// The SHA-256 digest of `data`.
pub uninterp spec fn sha256_digest(data: Seq<u8>) -> Seq<u8>;

/// Calls `openssl::hash::hash(MessageDigest::sha256(), data)`.
/// Claimed: a digest that comes back is `sha256_digest` of the data and is
/// 32 bytes long (the SHA-256 output size). Not stated: when OpenSSL fails
/// (its `Hasher` calls return an error stack, which depends on the library's
/// state, not on the data).
#[verifier::external_body]
pub(crate) fn openssl_sha256(data: &[u8]) -> (r: Result<Vec<u8>, openssl::error::ErrorStack>)
    ensures
        r matches Ok(d) ==> d@ == sha256_digest(data@) && d@.len() == 32,
{
    match openssl::hash::hash(openssl::hash::MessageDigest::sha256(), data) {
        Ok(d) => Ok(d.to_vec()),
        Err(e) => Err(e),
    }
}

} // verus!
