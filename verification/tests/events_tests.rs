//! The mirrored contract-side types: error codes, events and the
//! storage-deposit outcome, plus the bare trigger decision.

use erc1155_mirror::account::AccountId;
use erc1155_mirror::events::{
    ApprovalForAll, Blacklisted, Error, Paused, StorageDeposit, Unblacklisted, Unpaused,
    Unwhitelisted, Whitelisted,
};
use erc1155_mirror::trigger::{PriceAction, PriceListener};

fn account(byte: u8) -> AccountId {
    AccountId::from_bytes(vec![byte; 32]).unwrap()
}

#[test]
fn contract_errors_are_distinct() {
    assert_ne!(Error::InsufficientBalance, Error::NotApproved);
    assert_ne!(Error::NotOwner, Error::ArraySizeMismatch);
    assert_ne!(Error::ContractPaused, Error::AccountBlacklisted);
    assert_ne!(Error::AccountNotWhitelisted, Error::InsufficientValue);
    assert_eq!(Error::ContractPaused, Error::ContractPaused);
}

#[test]
fn storage_deposit_carries_amount() {
    let refund: StorageDeposit<u128> = StorageDeposit::Refund(5);
    let charge: StorageDeposit<u128> = StorageDeposit::Charge(5);
    assert_ne!(refund, charge);
    assert_eq!(refund, StorageDeposit::Refund(5));
}

#[test]
fn event_records_keep_their_fields() {
    let approval = ApprovalForAll { owner: account(1), operator: account(2), approved: true };
    assert!(approval.approved);
    assert_eq!(approval.owner.as_bytes(), &[1u8; 32]);
    assert_eq!(approval.operator.as_bytes(), &[2u8; 32]);

    let paused = Paused { account: account(3) };
    let unpaused = Unpaused { account: account(3) };
    assert_eq!(paused.account.as_bytes(), unpaused.account.as_bytes());

    let b = Blacklisted { account: account(4) };
    let ub = Unblacklisted { account: account(4) };
    let w = Whitelisted { account: account(5) };
    let uw = Unwhitelisted { account: account(5) };
    assert_eq!(b.account.as_bytes(), ub.account.as_bytes());
    assert_eq!(w.account.as_bytes(), uw.account.as_bytes());
}

#[test]
fn fires_at_gates_on_target_then_bound() {
    let sell = PriceListener {
        token_id: 1,
        target_price: 100,
        action: PriceAction::Sell { amount: 10, min_price: 120 },
        enabled: true,
    };
    // Above target but below the sale's own minimum.
    assert!(!sell.fires_at(110));
    assert!(sell.fires_at(120));

    let buy = PriceListener {
        token_id: 1,
        target_price: 100,
        action: PriceAction::Buy { amount: 10, max_price: 120 },
        enabled: true,
    };
    assert!(buy.fires_at(100));
    assert!(buy.fires_at(120));
    assert!(!buy.fires_at(121));
    assert!(!buy.fires_at(99));
}
