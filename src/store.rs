//! Framing of the stored data file: the canonical text of the entries,
//! transformed with the password's key.
use vstd::prelude::*;
use vstd::string::*;
use vstd::utf8::*;

use crate::cipher::{lemma_xor_self_inverse, vernam_cipher, xor_stream};
use crate::key::{derive_key, key_of};

verus! {

/// The recovered bytes of a stored file are not valid UTF-8: the key is wrong
/// or the file is corrupt.
#[derive(Debug, PartialEq, Eq, Structural)]
pub struct DecodeError;

/// The bytes written for `text` under `key`.
pub open spec fn sealed(text: Seq<char>, key: Seq<u8>) -> Seq<u8> {
    xor_stream(encode_utf8(text), key)
}

/// What reading the stored bytes `file` under `key` gives: `None` for an empty
/// file (nothing saved yet), the recovered text, or a decode error.
pub open spec fn opened(file: Seq<u8>, key: Seq<u8>) -> Result<Option<Seq<char>>, DecodeError> {
    if file.len() == 0 {
        Ok(None)
    } else if valid_utf8(xor_stream(file, key)) {
        Ok(Some(decode_utf8(xor_stream(file, key))))
    } else {
        Err(DecodeError)
    }
}

/// The contents of a store that was never saved to.
pub open spec fn fresh_contents() -> Seq<u8> {
    Seq::empty()
}

/// The mathematical value of a result of [`open`].
pub open spec fn view_opened(r: Result<Option<String>, DecodeError>) -> Result<
    Option<Seq<char>>,
    DecodeError,
> {
    match r {
        Ok(Some(s)) => Ok(Some(s@)),
        Ok(None) => Ok(None),
        Err(e) => Err(e),
    }
}

/// Relies on `String::from_utf8`: it succeeds exactly on valid UTF-8, and the
/// string holds the characters that the bytes encode.
#[verifier::external_body]
fn string_from_utf8(bytes: Vec<u8>) -> (r: Option<String>)
    ensures
        r.is_some() == valid_utf8(bytes@),
        r.is_some() ==> r.unwrap()@ == decode_utf8(bytes@),
{
    String::from_utf8(bytes).ok()
}

/// The bytes that a newly initialized store holds.
pub fn initial_store_contents() -> (r: Vec<u8>)
    ensures
        r@ == fresh_contents(),
{
    let r: Vec<u8> = Vec::new();
    assert(r@ =~= fresh_contents());
    r
}

/// The bytes to write for the canonical text `text` under `password`.
pub fn seal(text: &str, password: &str) -> (r: Vec<u8>)
    ensures
        r@ == sealed(text@, key_of(password@)),
{
    let key = derive_key(password);
    vernam_cipher(text.as_bytes(), key.as_slice())
}

/// Recovers the canonical text from the stored bytes `file` under `password`.
pub fn open(file: &[u8], password: &str) -> (r: Result<Option<String>, DecodeError>)
    ensures
        view_opened(r) == opened(file@, key_of(password@)),
{
    if file.len() == 0 {
        return Ok(None);
    }
    let key = derive_key(password);
    let plain = vernam_cipher(file, key.as_slice());
    match string_from_utf8(plain) {
        Some(s) => Ok(Some(s)),
        None => Err(DecodeError),
    }
}

/// Saving non-empty text under a key and reading it back under the same key
/// gives the text again.
pub proof fn lemma_save_load_round_trip(text: Seq<char>, key: Seq<u8>)
    requires
        text.len() > 0,
        key.len() > 0,
    ensures
        opened(sealed(text, key), key) == Ok::<Option<Seq<char>>, DecodeError>(Some(text)),
{
    let bytes = encode_utf8(text);
    lemma_xor_self_inverse(bytes, key);
    encode_utf8_valid_utf8(text);
    encode_utf8_decode_utf8(text);
}

/// Reading text back under a key other than the one it was saved under,
/// of the same length and no longer than the saved bytes, never gives that
/// text: the result is a decode error or some other text.
pub proof fn lemma_wrong_key_garbles(text: Seq<char>, k1: Seq<u8>, k2: Seq<u8>)
    requires
        k1.len() > 0,
        k2.len() == k1.len(),
        k1 != k2,
        encode_utf8(text).len() >= k1.len(),
    ensures
        opened(sealed(text, k1), k2) != Ok::<Option<Seq<char>>, DecodeError>(Some(text)),
{
    let bytes = encode_utf8(text);
    let n = k1.len();
    let j = choose|j: int| 0 <= j < n && k1[j] != k2[j];
    if !(0 <= j < n && k1[j] != k2[j]) {
        assert(k1 =~= k2);
    }
    let got = xor_stream(xor_stream(bytes, k1), k2);
    vstd::arithmetic::div_mod::lemma_small_mod(j as nat, n as nat);
    let a = bytes[j];
    let x = k1[j];
    let y = k2[j];
    assert(x != y ==> (a ^ x) ^ y != a) by (bit_vector);
    assert(got[j] != bytes[j]);
    if opened(sealed(text, k1), k2) == Ok::<Option<Seq<char>>, DecodeError>(Some(text)) {
        decode_utf8_encode_utf8(got);
        assert(got == bytes);
    }
}

/// A store that was never saved to reads as empty under every key.
pub proof fn lemma_fresh_store_is_empty(key: Seq<u8>)
    ensures
        opened(fresh_contents(), key) == Ok::<Option<Seq<char>>, DecodeError>(None),
{
}

} // verus!
