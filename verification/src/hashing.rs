//! Collision-resistant digests used for intent commitments and for
//! content-addressed identifiers of pool and solver strings.

use vstd::prelude::*;
use vstd::utf8::encode_utf8;

verus! {

/// The 32-byte SHA-256 digest of a byte sequence, left abstract: the library
/// never states what the digest of given bytes is, only that it is a function
/// of the input bytes alone.
pub uninterp spec fn sha256_of(data: Seq<u8>) -> Seq<u8>;

/// Relies on `sha2::Sha256` (through `Digest::digest`): the returned 32-byte
/// digest depends on the input bytes alone.
#[verifier::external_body]
pub(crate) fn sha256(data: &[u8]) -> (r: [u8; 32])
    ensures
        r@ == sha256_of(data@),
{
    <sha2::Sha256 as sha2::Digest>::digest(data).into()
}

/// The digest of a string's UTF-8 encoding.
pub open spec fn spec_string_hash(s: Seq<char>) -> Seq<u8> {
    sha256_of(encode_utf8(s))
}

/// Content-addressed identifier of an execution venue's pool id.
pub fn hash_pool_id(pool_id: &str) -> (r: [u8; 32])
    ensures
        r@ == spec_string_hash(pool_id@),
{
    sha256(pool_id.as_bytes())
}

/// Content-addressed identifier of a solver address.
pub fn hash_address(address: &str) -> (r: [u8; 32])
    ensures
        r@ == spec_string_hash(address@),
{
    sha256(address.as_bytes())
}

/// Constant-shape comparison of two 32-byte digests.
pub fn bytes32_eq(a: &[u8; 32], b: &[u8; 32]) -> (r: bool)
    ensures
        r == (a@ == b@),
{
    let mut i: usize = 0;
    while i < 32
        invariant
            i <= 32,
            forall|j: int| 0 <= j < i ==> a@[j] == b@[j],
        decreases 32 - i,
    {
        if a[i] != b[i] {
            assert(a@[i as int] != b@[i as int]);
            return false;
        }
        i = i + 1;
    }
    proof {
        assert(a@ =~= b@);
    }
    true
}

} // verus!
