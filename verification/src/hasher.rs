//! The fingerprint of an upload: a short digest of its raw bytes that
//! changes when the bytes do. It detects change; it protects nothing.

use vstd::prelude::*;

verus! {

/// The 64-bit SeaHash digest of `bytes` under the crate's prechosen seed:
/// what `seahash::hash` returns for them.
pub uninterp spec fn seahash_of(bytes: Seq<u8>) -> u64;

/// Calls `seahash::hash`. The digest depends on the bytes alone, so the
/// contract gives it the name `seahash_of`; which number it is for given
/// bytes is not stated.
#[verifier::external_body]
fn seahash_digest(bytes: &[u8]) -> (digest: u64)
    ensures
        digest == seahash_of(bytes@),
{
    seahash::hash(bytes)
}

/// The low 31 bits of `digest`: a number that fits a signed 32-bit field
/// without turning negative.
pub open spec fn fingerprint_of(digest: u64) -> i32 {
    (digest & 0x7fff_ffff) as i32
}

/// Every fingerprint lies between 0 and 2^31 - 1.
pub proof fn lemma_fingerprint_in_range(digest: u64)
    ensures
        0 <= fingerprint_of(digest) <= 0x7fff_ffff,
        fingerprint_of(digest) == digest % 0x8000_0000,
{
    assert(digest & 0x7fff_ffff <= 0x7fff_ffff) by (bit_vector);
    assert(digest & 0x7fff_ffff == digest % 0x8000_0000) by (bit_vector);
}

/// The fingerprint of `bytes`: their SeaHash digest cut down to 31 bits.
pub open spec fn hash_of(bytes: Seq<u8>) -> i32 {
    fingerprint_of(seahash_of(bytes))
}

/// The fingerprint is a function of the bytes: equal bytes have equal
/// fingerprints, and every fingerprint lies between 0 and 2^31 - 1.
pub proof fn lemma_hash_is_a_function(one: Seq<u8>, other: Seq<u8>)
    requires
        one =~= other,
    ensures
        hash_of(one) == hash_of(other),
        0 <= hash_of(one) <= 0x7fff_ffff,
{
    lemma_fingerprint_in_range(seahash_of(one));
}

/// Cuts a 64-bit digest down to its fingerprint.
pub fn fingerprint(digest: u64) -> (print: i32)
    ensures
        print == fingerprint_of(digest),
        0 <= print <= 0x7fff_ffff,
{
    proof {
        lemma_fingerprint_in_range(digest);
    }
    let low: u64 = digest & 0x7fff_ffff;
    low as i32
}

/// The fingerprint of `bytes`: the SeaHash digest of the whole sequence with
/// all but its low 31 bits cleared.
pub fn hash(bytes: &Vec<u8>) -> (print: i32)
    ensures
        print == hash_of(bytes@),
        0 <= print <= 0x7fff_ffff,
{
    fingerprint(seahash_digest(bytes.as_slice()))
}

} // verus!
