//! Password-to-key derivation.
use vstd::prelude::*;
use vstd::string::*;
use vstd::utf8::*;

verus! {

/// The SHA-256 digest of a byte sequence.
pub uninterp spec fn sha256_of(data: Seq<u8>) -> Seq<u8>;

/// Relies on `sha2::Sha256::digest`: the SHA-256 digest of `data`, whose
/// output size is 32 bytes.
#[verifier::external_body]
fn sha256(data: &[u8]) -> (r: Vec<u8>)
    ensures
        r@ == sha256_of(data@),
        r@.len() == 32,
{
    <sha2::Sha256 as sha2::Digest>::digest(data).to_vec()
}

/// The key derived from a password: the digest of its UTF-8 bytes.
pub open spec fn key_of(password: Seq<char>) -> Seq<u8> {
    sha256_of(encode_utf8(password))
}

/// Derives the 32-byte key of a password; equal passwords give equal keys.
pub fn derive_key(password: &str) -> (r: Vec<u8>)
    ensures
        r@ == key_of(password@),
        r@.len() == 32,
{
    sha256(password.as_bytes())
}

} // verus!
