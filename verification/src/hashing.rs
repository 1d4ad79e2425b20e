//! The hash that puts users into rollout buckets.
use vstd::prelude::*;

verus! {

/// Trusted: the type `std::io::Error` is opaque.
#[verifier::external_type_specification]
#[verifier::external_body]
pub struct ExIoError(std::io::Error);

/// The 32-bit MurmurHash3 (x86) of some bytes under a seed.
pub uninterp spec fn murmur3_of(bytes: Seq<u8>, seed: u32) -> u32;

/// Trusted: `murmur3::murmur3_32` over a `std::io::Cursor`. Reading from memory never fails, so
/// neither does the hash; it depends on the bytes and the seed alone. The crate counts the bytes
/// in a `u32`, so no more than that are handed to it.
#[verifier::external_body]
fn murmur3_32(bytes: &[u8], seed: u32) -> (hash: Result<u32, std::io::Error>)
    requires
        bytes@.len() <= u32::MAX,
    ensures
        hash is Ok,
        hash->Ok_0 == murmur3_of(bytes@, seed),
{
    let mut cursor = std::io::Cursor::new(bytes);
    murmur3::murmur3_32(&mut cursor, seed)
}

/// MurmurHash3 (x86_32) of a key: the same key and seed give the same hash on every platform.
pub fn murmurhash3_x86_32(key: &[u8], seed: u32) -> (hash: u32)
    requires
        key@.len() <= u32::MAX,
    ensures
        hash == murmur3_of(key@, seed),
{
    murmur3_32(key, seed).unwrap()
}

} // verus!
