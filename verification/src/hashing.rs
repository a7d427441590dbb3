//! Content-addressed identifier derivation.
//!
//! Product identifiers and bridge asset identifiers are both derived the same
//! way: a canonical byte encoding of the value is hashed with Keccak-256 and
//! the first 16 bytes of the digest, read little-endian, give a 128-bit id.

use sha3::Digest;
use vstd::prelude::*;
use vstd::bytes::{spec_u128_from_le_bytes, u128_from_le_bytes};
use vstd::slice::slice_subrange;

verus! {

/// The Keccak-256 digest of a byte string, as computed by the `sha3` crate.
///
/// The digest is a function of the input bytes alone; nothing further is
/// assumed of it beyond its 32-byte length, which is stated where the digest
/// is taken.
pub uninterp spec fn keccak256_of(bytes: Seq<u8>) -> Seq<u8>;

/// Relies on `sha3::Keccak256` (via the `Digest` trait): the digest is
/// 32 bytes long and depends on the input bytes alone.
#[verifier::external_body]
pub fn keccak_256(bytes: &[u8]) -> (r: Vec<u8>)
    ensures
        r@ == keccak256_of(bytes@),
        r@.len() == 32,
{
    let mut hasher = sha3::Keccak256::new();
    hasher.update(bytes);
    hasher.finalize().to_vec()
}

/// The 128-bit identifier derived from a byte string: the first 16 bytes of
/// its Keccak-256 digest, read little-endian.
pub open spec fn spec_id_of_bytes(bytes: Seq<u8>) -> u128 {
    spec_u128_from_le_bytes(keccak256_of(bytes).take(16))
}

/// Derives the 128-bit identifier of a byte string.
pub fn id_of_bytes(bytes: &[u8]) -> (id: u128)
    ensures
        id == spec_id_of_bytes(bytes@),
{
    let digest = keccak_256(bytes);
    let head = slice_subrange(digest.as_slice(), 0, 16);
    u128_from_le_bytes(head)
}

} // verus!
