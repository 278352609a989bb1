//! Records of what the tracked contract reports: its error codes, the
//! events it emits, and the storage-deposit outcome of a submitted call.
//! The mirror holds these as plain values decoded from event logs.

use vstd::prelude::*;

use crate::account::AccountId;

verus! {

/// An error reported by the tracked contract.
#[derive(Debug, Clone, Copy, PartialEq, Eq, Structural)]
pub enum Error {
    /// Balance too low for a transfer.
    InsufficientBalance,
    /// The caller is not approved to operate on the token.
    NotApproved,
    /// The caller is not the owner of the token.
    NotOwner,
    /// Transfer array size mismatch.
    ArraySizeMismatch,
    /// The contract is paused.
    ContractPaused,
    /// The account is blacklisted.
    AccountBlacklisted,
    /// The account is not whitelisted.
    AccountNotWhitelisted,
    /// Insufficient payment value.
    InsufficientValue,
}

/// Approval granted or revoked by `owner` for `operator`.
#[derive(Debug)]
pub struct ApprovalForAll {
    /// The account granting or revoking approval.
    pub owner: AccountId,
    /// The account approved or unapproved.
    pub operator: AccountId,
    /// Whether approval now holds.
    pub approved: bool,
}

/// The contract was paused by `account`.
#[derive(Debug)]
pub struct Paused {
    /// The account that paused the contract.
    pub account: AccountId,
}

/// The contract was unpaused by `account`.
#[derive(Debug)]
pub struct Unpaused {
    /// The account that unpaused the contract.
    pub account: AccountId,
}

/// An account was added to the blacklist.
#[derive(Debug)]
pub struct Blacklisted {
    /// The blacklisted account.
    pub account: AccountId,
}

/// An account was removed from the blacklist.
#[derive(Debug)]
pub struct Unblacklisted {
    /// The account removed from the blacklist.
    pub account: AccountId,
}

/// An account was added to the whitelist.
#[derive(Debug)]
pub struct Whitelisted {
    /// The whitelisted account.
    pub account: AccountId,
}

/// An account was removed from the whitelist.
#[derive(Debug)]
pub struct Unwhitelisted {
    /// The account removed from the whitelist.
    pub account: AccountId,
}

/// The storage deposit taken or returned by a submitted call.
#[derive(Debug, Clone, Copy, PartialEq, Eq, Structural)]
pub enum StorageDeposit<T> {
    /// The runtime refunded this much deposit.
    Refund(T),
    /// The runtime charged this much deposit.
    Charge(T),
}

} // verus!
