//! The repeating-key XOR transform.
use vstd::prelude::*;

verus! {

/// Byte `i` of `data` combined with the key byte that repeats over position `i`.
pub open spec fn xor_stream(data: Seq<u8>, key: Seq<u8>) -> Seq<u8> {
    Seq::new(data.len(), |i: int| data[i] ^ key[i % (key.len() as int)])
}

/// Repeating-key XOR: output byte `i` is `input[i] ^ key[i % (key.len() as int)]`.
pub fn vernam_cipher(input: &[u8], key: &[u8]) -> (r: Vec<u8>)
    requires
        key@.len() > 0,
    ensures
        r@ == xor_stream(input@, key@),
{
    let n = key.len();
    let mut out: Vec<u8> = Vec::new();
    let mut i: usize = 0;
    while i < input.len()
        invariant
            i <= input@.len(),
            n == key@.len(),
            n > 0,
            out@.len() == i,
            forall|j: int| 0 <= j < i ==> out@[j] == input@[j] ^ key@[j % (n as int)],
        decreases input@.len() - i,
    {
        out.push(input[i] ^ key[i % n]);
        i = i + 1;
    }
    assert(out@ =~= xor_stream(input@, key@));
    out
}

/// Applying the transform twice with the same key gives back the original bytes.
pub proof fn lemma_xor_self_inverse(data: Seq<u8>, key: Seq<u8>)
    requires
        key.len() > 0,
    ensures
        xor_stream(xor_stream(data, key), key) == data,
{
    let twice = xor_stream(xor_stream(data, key), key);
    assert forall|i: int| 0 <= i < data.len() implies #[trigger] twice[i] == data[i] by {
        let a = data[i];
        let b = key[i % (key.len() as int)];
        assert((a ^ b) ^ b == a) by (bit_vector);
    }
    assert(twice =~= data);
}

} // verus!
