//! The password gate: the stored record of a password and its verification.
use vstd::prelude::*;

use crate::key::{derive_key, key_of};

verus! {

/// The record that setting `password` stores: the digest of the password.
pub open spec fn record_of(password: Seq<char>) -> Seq<u8> {
    key_of(password)
}

/// What the password file holds after setting `password`: setting replaces
/// whatever was stored before.
pub open spec fn stored_after_set(before: Seq<u8>, password: Seq<char>) -> Seq<u8> {
    record_of(password)
}

/// `password` verifies against the stored record `stored`.
pub open spec fn verifies(password: Seq<char>, stored: Seq<u8>) -> bool {
    stored == record_of(password)
}

/// The bytes to store when `password` is set.
pub fn password_record(password: &str) -> (r: Vec<u8>)
    ensures
        r@ == record_of(password@),
        r@.len() == 32,
{
    derive_key(password)
}

/// Whether `password` matches the stored record `stored`, byte for byte.
pub fn verify_password_record(password: &str, stored: &[u8]) -> (r: bool)
    ensures
        r == verifies(password@, stored@),
{
    let digest = derive_key(password);
    if digest.len() != stored.len() {
        return false;
    }
    let mut i: usize = 0;
    while i < stored.len()
        invariant
            i <= stored@.len(),
            digest@.len() == stored@.len(),
            digest@ == record_of(password@),
            forall|j: int| 0 <= j < i ==> digest@[j] == stored@[j],
        decreases stored@.len() - i,
    {
        if digest[i] != stored[i] {
            return false;
        }
        i = i + 1;
    }
    assert(digest@ =~= stored@);
    true
}

/// Setting the same password twice leaves it verifying.
pub proof fn lemma_set_password_twice(password: Seq<char>, before: Seq<u8>)
    ensures
        verifies(password, stored_after_set(stored_after_set(before, password), password)),
{
}

/// Setting a new password whose digest differs from the previous one's makes
/// the previous password fail verification.
pub proof fn lemma_new_password_replaces_previous(
    previous: Seq<char>,
    next: Seq<char>,
    before: Seq<u8>,
)
    requires
        record_of(previous) != record_of(next),
    ensures
        verifies(previous, stored_after_set(before, previous)),
        !verifies(previous, stored_after_set(stored_after_set(before, previous), next)),
{
}

} // verus!
