//! The 256-bit BLAKE2b digest used to compact large signing payloads.

use vstd::prelude::*;

verus! {

/// Length in bytes of a digest.
pub const DIGEST_LEN: usize = 32;

/// The BLAKE2b hash of `data` with an output of `nn` bytes under the key `key`
/// (the empty key for unkeyed hashing), as the `blake2-rfc` crate computes it.
pub uninterp spec fn blake2b_digest(nn: nat, key: Seq<u8>, data: Seq<u8>) -> Seq<u8>;

/// The 256-bit digest of `data`: BLAKE2b with a 32-byte output and no key.
pub open spec fn blake2_256_spec(data: Seq<u8>) -> Seq<u8> {
    blake2b_digest(32, Seq::empty(), data)
}

/// Calls `blake2_rfc::blake2b::blake2b` and copies the bytes of its result
/// (`Blake2bResult::as_bytes`) into `dest`.
///
/// Trusted: the bytes written are the hash of `data` for the output length
/// `nn` and the key `key`. The outside function panics unless
/// `1 <= nn <= 64` and the key has at most 64 bytes, and the copy panics
/// unless `dest` has `nn` bytes, the length of the result; its count of
/// hashed bytes cannot overflow on a slice, which holds fewer than 2^63.
#[verifier::external_body]
fn blake2b_into(nn: usize, key: &[u8], data: &[u8], dest: &mut [u8])
    requires
        1 <= nn <= 64,
        key@.len() <= 64,
        old(dest)@.len() == nn,
    ensures
        final(dest)@ == blake2b_digest(nn as nat, key@, data@),
{
    dest.copy_from_slice(blake2_rfc::blake2b::blake2b(nn, key, data).as_bytes());
}

/// Do a Blake2 256-bit hash and place result in `dest`.
pub fn blake2_256_into(data: &[u8], dest: &mut [u8; 32])
    ensures
        final(dest)@ == blake2_256_spec(data@),
{
    let key: [u8; 0] = [];
    assert(key@ =~= Seq::<u8>::empty());
    blake2b_into(DIGEST_LEN, key.as_slice(), data, dest);
}

/// Do a Blake2 256-bit hash and return result.
pub fn blake2_256(data: &[u8]) -> (r: [u8; 32])
    ensures
        r@ == blake2_256_spec(data@),
{
    let mut r = [0u8; 32];
    blake2_256_into(data, &mut r);
    r
}

/// The digest is a function of the bytes alone: two digests of the same
/// bytes, whenever and by whichever of the two functions they were made, are
/// the same 32 bytes.
pub proof fn lemma_digest_is_deterministic(data: Seq<u8>, first: [u8; 32], second: [u8; 32])
    requires
        first@ == blake2_256_spec(data),
        second@ == blake2_256_spec(data),
    ensures
        first == second,
{
    assert(first@ =~= second@);
    assert(first =~= second);
}

} // verus!
