//! Digests used by the storage-key derivation scheme and the selector
//! computation. The digests themselves are computed by an outside crate;
//! here each result only carries a name, since it is a function of the
//! input alone.

use vstd::prelude::*;

verus! {

/// The 16-byte Blake2b digest of a byte string.
pub uninterp spec fn blake2_128_of(data: Seq<u8>) -> Seq<u8>;

/// The 16-byte XX ("twox") digest of a byte string.
pub uninterp spec fn twox_128_of(data: Seq<u8>) -> Seq<u8>;

/// The 32-byte Keccak digest of a byte string.
pub uninterp spec fn keccak_256_of(data: Seq<u8>) -> Seq<u8>;

/// Relies on `sp_crypto_hashing::blake2_128`: a 16-byte Blake2b digest of
/// the input alone.
#[verifier::external_body]
pub(crate) fn hash_blake2_128(data: &[u8]) -> (r: Vec<u8>)
    ensures
        r@ == blake2_128_of(data@),
        r@.len() == 16,
{
    sp_crypto_hashing::blake2_128(data).to_vec()
}

/// Relies on `sp_crypto_hashing::twox_128`: a 16-byte XX digest of the
/// input alone.
#[verifier::external_body]
pub(crate) fn hash_twox_128(data: &[u8]) -> (r: Vec<u8>)
    ensures
        r@ == twox_128_of(data@),
        r@.len() == 16,
{
    sp_crypto_hashing::twox_128(data).to_vec()
}

/// Relies on `sp_crypto_hashing::keccak_256`: a 32-byte Keccak digest of
/// the input alone.
#[verifier::external_body]
pub(crate) fn hash_keccak_256(data: &[u8]) -> (r: Vec<u8>)
    ensures
        r@ == keccak_256_of(data@),
        r@.len() == 32,
{
    sp_crypto_hashing::keccak_256(data).to_vec()
}

} // verus!
