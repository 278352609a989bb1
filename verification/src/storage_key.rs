//! Storage-key derivation: reproduces the remote runtime's addressing of a
//! contract's fields and map entries, so the read path can fetch raw storage
//! without invoking the contract.
//!
//! A key is the concatenation of a contract namespace (a 16-byte Blake2b
//! digest of the contract address followed by the address itself), a field
//! identifier (a 16-byte XX digest of the field name), and, for map fields,
//! a concat-hashed map key — truncated to the first 32 bytes, zero-padded on
//! the right when shorter.

use vstd::prelude::*;
use vstd::bytes::spec_u128_to_le_bytes;
use vstd::bytes::u128_to_le_bytes;
use vstd::string::StringSliceAdditionalSpecFns;

use crate::account::AccountId;
use crate::hashing::{blake2_128_of, twox_128_of, hash_blake2_128, hash_twox_128};

verus! {

/// A derived 32-byte storage key.
#[derive(Debug)]
pub struct StorageKey {
    bytes: Vec<u8>,
}

impl View for StorageKey {
    type V = Seq<u8>;

    closed spec fn view(&self) -> Seq<u8> {
        self.bytes@
    }
}

impl Clone for StorageKey {
    fn clone(&self) -> (r: Self)
        ensures
            r@ == self@,
    {
        StorageKey { bytes: self.bytes.clone() }
    }
}

impl StorageKey {
    /// The key holds exactly thirty-two bytes.
    pub open spec fn wf(&self) -> bool {
        self@.len() == 32
    }

    /// The raw bytes of the key.
    pub fn as_bytes(&self) -> (r: &[u8])
        ensures
            r@ == self@,
    {
        self.bytes.as_slice()
    }
}

/// The concat-hash of a byte string: its 16-byte Blake2b digest followed by
/// the string itself.
pub open spec fn blake2_concat_of(data: Seq<u8>) -> Seq<u8> {
    blake2_128_of(data) + data
}

/// The first thirty-two bytes of a byte string, zero-padded on the right
/// when it is shorter.
pub open spec fn truncate_pad_32(s: Seq<u8>) -> Seq<u8> {
    if s.len() >= 32 {
        s.subrange(0, 32)
    } else {
        s + Seq::new((32 - s.len()) as nat, |i: int| 0u8)
    }
}

/// The derived key for a field of a contract: contract namespace, then field
/// identifier, then the concat-hashed map key when the field is a map, cut
/// to thirty-two bytes.
pub open spec fn spec_derive_key(
    contract: Seq<u8>,
    field_name: Seq<u8>,
    map_key: Option<Seq<u8>>,
) -> Seq<u8> {
    let base = blake2_concat_of(contract) + twox_128_of(field_name);
    let full = match map_key {
        None => base,
        Some(k) => base + blake2_concat_of(k),
    };
    truncate_pad_32(full)
}

/// Key derivation is deterministic: equal contract, field and map-key inputs
/// derive equal keys.
pub proof fn lemma_derive_key_deterministic(
    c1: Seq<u8>,
    f1: Seq<u8>,
    m1: Option<Seq<u8>>,
    c2: Seq<u8>,
    f2: Seq<u8>,
    m2: Option<Seq<u8>>,
)
    requires
        c1 == c2,
        f1 == f2,
        m1 == m2,
    ensures
        spec_derive_key(c1, f1, m1) == spec_derive_key(c2, f2, m2),
{
}

/// Computes the concat-hash of a byte string.
fn blake2_concat(data: &[u8]) -> (r: Vec<u8>)
    ensures
        r@ == blake2_concat_of(data@),
{
    let mut r = hash_blake2_128(data);
    r.extend_from_slice(data);
    r
}

/// Cuts a byte string to thirty-two bytes, zero-padding on the right.
fn truncate_pad(v: Vec<u8>) -> (r: Vec<u8>)
    ensures
        r@ == truncate_pad_32(v@),
        r@.len() == 32,
{
    let mut r = v;
    if r.len() >= 32 {
        r.truncate(32);
        r
    } else {
        let ghost orig = r@;
        while r.len() < 32
            invariant
                orig.len() < 32,
                orig.len() <= r@.len() <= 32,
                r@ =~= orig + Seq::new((r@.len() - orig.len()) as nat, |i: int| 0u8),
            decreases 32 - r@.len(),
        {
            r.push(0u8);
            proof {
                assert(r@ =~= orig + Seq::new((r@.len() - orig.len()) as nat, |i: int| 0u8));
            }
        }
        proof {
            assert(r@ =~= truncate_pad_32(orig));
        }
        r
    }
}

/// Derives the storage key for a named field of a contract, with the encoded
/// map key for map fields.
///
/// When the concatenation of namespace, field identifier and map part runs
/// past thirty-two bytes, the tail — for the balances map, the whole map-key
/// contribution — is discarded by the cut. That truncation reproduces the
/// addressing scheme byte for byte; a key derived differently would not match
/// the deployed store.
pub fn derive_key(contract: &AccountId, field_name: &[u8], map_key: Option<&Vec<u8>>) -> (r:
    StorageKey)
    ensures
        r.wf(),
        map_key matches Some(k) ==> r@ == spec_derive_key(contract@, field_name@, Some(k@)),
        map_key is None ==> r@ == spec_derive_key(contract@, field_name@, None),
{
    let mut full = blake2_concat(contract.as_bytes());
    let mut field_id = hash_twox_128(field_name);
    full.append(&mut field_id);
    match map_key {
        Some(k) => {
            let mut map_part = blake2_concat(k.as_slice());
            full.append(&mut map_part);
        },
        None => {},
    }
    let bytes = truncate_pad(full);
    StorageKey { bytes }
}

/// The map key of a balance entry: the token identifier, sixteen bytes
/// little-endian, followed by the thirty-two account bytes.
pub open spec fn spec_balance_map_key(account: Seq<u8>, token_id: u128) -> Seq<u8> {
    spec_u128_to_le_bytes(token_id) + account
}

/// The derived key of a balance entry in the contract's `balances` map.
pub open spec fn spec_balance_storage_key(
    contract: Seq<u8>,
    account: Seq<u8>,
    token_id: u128,
) -> Seq<u8> {
    spec_derive_key(contract, "balances".spec_bytes(), Some(spec_balance_map_key(account, token_id)))
}

/// Computes the storage key holding the balance of `account` for the token,
/// inside the contract's `balances` map.
pub fn compute_balance_storage_key(contract: &AccountId, account: &AccountId, token_id: u128) -> (r:
    StorageKey)
    ensures
        r.wf(),
        r@ == spec_balance_storage_key(contract@, account@, token_id),
{
    let mut map_key = u128_to_le_bytes(token_id);
    map_key.extend_from_slice(account.as_bytes());
    proof {
        assert(map_key@ =~= spec_balance_map_key(account@, token_id));
    }
    derive_key(contract, "balances".as_bytes(), Some(&map_key))
}

/// The derived key of a token's URI in the contract's `token_uris` map.
pub open spec fn spec_uri_storage_key(contract: Seq<u8>, token_id: u128) -> Seq<u8> {
    spec_derive_key(contract, "token_uris".spec_bytes(), Some(spec_u128_to_le_bytes(token_id)))
}

/// Computes the storage key holding a token's URI, inside the contract's
/// `token_uris` map.
pub fn compute_uri_storage_key(contract: &AccountId, token_id: u128) -> (r: StorageKey)
    ensures
        r.wf(),
        r@ == spec_uri_storage_key(contract@, token_id),
{
    let map_key = u128_to_le_bytes(token_id);
    derive_key(contract, "token_uris".as_bytes(), Some(&map_key))
}

/// The derived key of the contract's token identifier nonce.
pub open spec fn spec_nonce_storage_key(contract: Seq<u8>) -> Seq<u8> {
    spec_derive_key(contract, "token_id_nonce".spec_bytes(), None)
}

/// Computes the storage key holding the contract's token identifier nonce.
pub fn compute_nonce_storage_key(contract: &AccountId) -> (r: StorageKey)
    ensures
        r.wf(),
        r@ == spec_nonce_storage_key(contract@),
{
    derive_key(contract, "token_id_nonce".as_bytes(), None)
}

/// The key of a contract's metadata record in the runtime's contracts
/// pallet: two fixed pallet and item identifiers, then the concat-hashed
/// contract address, cut to thirty-two bytes.
pub open spec fn spec_contract_code_hash_key(contract: Seq<u8>) -> Seq<u8> {
    truncate_pad_32(
        twox_128_of("Contracts".spec_bytes()) + twox_128_of("ContractInfoOf".spec_bytes())
            + blake2_concat_of(contract),
    )
}

/// Computes the storage key of the contract's metadata record, used to check
/// that the contract exists.
pub fn compute_contract_code_hash_key(contract: &AccountId) -> (r: StorageKey)
    ensures
        r.wf(),
        r@ == spec_contract_code_hash_key(contract@),
{
    let mut full = hash_twox_128("Contracts".as_bytes());
    let mut item = hash_twox_128("ContractInfoOf".as_bytes());
    full.append(&mut item);
    let mut tail = blake2_concat(contract.as_bytes());
    full.append(&mut tail);
    let bytes = truncate_pad(full);
    StorageKey { bytes }
}

} // verus!
