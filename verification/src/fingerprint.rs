//! Content fingerprinting: a stable hash of a local asset's bytes, used to
//! decide whether an icon upload can be skipped.

use vstd::prelude::*;
use sha2::Digest;
use crate::text::{hex_of, bytes_to_hex};

verus! {

/// The SHA-256 digest of a byte string. The digest is a function of the
/// bytes alone; its value is not axiomatized here.
pub uninterp spec fn sha256_of(bytes: Seq<u8>) -> Seq<u8>;

/// Relies on sha2::Sha256::digest: the SHA-256 digest of the input, 32
/// bytes, a function of the input bytes alone.
#[verifier::external_body]
fn sha256_digest(bytes: &Vec<u8>) -> (r: Vec<u8>)
    ensures
        r@ == sha256_of(bytes@),
        r@.len() == 32,
{
    sha2::Sha256::digest(bytes).to_vec()
}

/// The content fingerprint of a byte string: the lowercase hexadecimal
/// encoding of its SHA-256 digest.
pub open spec fn fingerprint_of(bytes: Seq<u8>) -> Seq<char> {
    hex_of(sha256_of(bytes))
}

/// Computes the content fingerprint of an asset's bytes.
pub fn content_fingerprint(bytes: &Vec<u8>) -> (r: String)
    ensures
        r@ == fingerprint_of(bytes@),
        r@.len() == 64,
{
    let digest = sha256_digest(bytes);
    bytes_to_hex(&digest)
}

} // verus!
