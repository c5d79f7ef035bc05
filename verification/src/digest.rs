//! SHA-256, the one hash function of the ledger, and the hexadecimal text in
//! which every hash is stored.

use crate::encoding::{hex_lower, to_hex};
use sha2::{Digest, Sha256};
use vstd::prelude::*;

verus! {

/// The SHA-256 digest of a byte string. The function is not defined here: it
/// stands for what the `sha2` crate computes, and equal inputs have equal
/// digests.
pub uninterp spec fn sha256_digest(data: Seq<u8>) -> Seq<u8>;

/// The hash of a byte string as the ledger stores it: the SHA-256 digest in
/// lower-case hexadecimal.
pub open spec fn hash_text(data: Seq<u8>) -> Seq<char> {
    hex_lower(sha256_digest(data))
}

/// `sha2::Sha256::digest`: hashes the whole input in one call. The result is
/// the SHA-256 digest of `data`, which is 32 bytes long.
#[verifier::external_body]
pub(crate) fn sha256(data: &[u8]) -> (digest: Vec<u8>)
    ensures
        digest@ == sha256_digest(data@),
        digest@.len() == 32,
{
    Sha256::digest(data).to_vec()
}

/// Hashes `data` and renders the digest as 64 lower-case hexadecimal
/// characters.
pub fn hash_hex(data: &[u8]) -> (text: String)
    ensures
        text@ == hash_text(data@),
        text@.len() == 64,
{
    let digest = sha256(data);
    to_hex(digest.as_slice())
}

} // verus!
