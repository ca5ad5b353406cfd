//! The two digests that the sandbox takes of byte strings.

use vstd::prelude::*;

verus! {

/// The BLAKE2b digest of `data` with an output of 32 bytes.
pub uninterp spec fn blake2_256_digest(data: Seq<u8>) -> Seq<u8>;

/// The 16-byte XX digest of `data`: the 64-bit XXH64 values under the seeds
/// 0 and 1, each written least significant byte first.
pub uninterp spec fn twox_128_digest(data: Seq<u8>) -> Seq<u8>;

/// Calls `sp_crypto_hashing::blake2_256`. Trusted: the result is the digest
/// of exactly the bytes given, the same on every call.
#[verifier::external_body]
pub(crate) fn blake2_256(data: &[u8]) -> (r: [u8; 32])
    ensures
        r@ == blake2_256_digest(data@),
{
    sp_crypto_hashing::blake2_256(data)
}

/// Calls `sp_crypto_hashing::twox_128`. Trusted: the result is the digest of
/// exactly the bytes given, the same on every call.
#[verifier::external_body]
pub(crate) fn twox_128(data: &[u8]) -> (r: [u8; 16])
    ensures
        r@ == twox_128_digest(data@),
{
    sp_crypto_hashing::twox_128(data)
}

} // verus!
