//! Local mirror and trigger engine for an ERC-1155 style ledger contract.
//!
//! The crate has three verified pieces: a storage-key derivation scheme that
//! reproduces the remote runtime's addressing of contract fields and map
//! entries, a binary call codec for method selectors, arguments and results,
//! and a persistent mirror of token, balance and price-listener records
//! together with the price-trigger decision logic.

pub mod error;

pub mod text;
pub mod account;
pub mod hashing;
pub mod codec;
pub mod storage_key;
pub mod records;
pub mod trigger;
pub mod kvstore;
pub mod mirror;
pub mod events;
