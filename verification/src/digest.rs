//! SHA-256 digests and their hexadecimal checksums.
use vstd::prelude::*;
use sha2::{Digest, Sha256};
use crate::text::{hex, hex_string};

verus! {

/// The SHA-256 digest of a byte string.
pub uninterp spec fn sha256_digest(data: Seq<u8>) -> Seq<u8>;

/// `sha2::Sha256::digest`: the result is the SHA-256 digest of exactly the
/// given bytes, 32 bytes long. Nothing else about the digest is stated.
#[verifier::external_body]
fn sha256(data: &[u8]) -> (r: Vec<u8>)
    ensures
        r@ == sha256_digest(data@),
        r@.len() == 32,
{
    Sha256::digest(data).to_vec()
}

/// The checksum of a byte string: its SHA-256 digest in lower-case hexadecimal.
pub open spec fn checksum_of(data: Seq<u8>) -> Seq<char> {
    hex(sha256_digest(data))
}

/// The lower-case hexadecimal SHA-256 checksum of a byte string.
pub fn sha256_hex(data: &[u8]) -> (r: String)
    ensures
        r@ == checksum_of(data@),
        r@.len() == 64,
{
    let d = sha256(data);
    let r = hex_string(d.as_slice());
    proof { crate::text::lemma_hex_len(d@); }
    r
}

} // verus!
