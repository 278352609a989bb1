//! The persistent mirror and the trigger engine, run against real temporary
//! storage.

use erc1155_mirror::account::AccountId;
use erc1155_mirror::mirror::StorageSled;
use erc1155_mirror::records::{Token, Balance};
use erc1155_mirror::trigger::{PriceAction, PriceListener, PriceUpdate};

fn account(byte: u8) -> AccountId {
    AccountId::from_bytes(vec![byte; 32]).unwrap()
}

fn fresh_mirror() -> StorageSled {
    StorageSled::open_temporary().unwrap()
}

#[test]
fn token_store_and_get_round_trip() {
    let mut mirror = fresh_mirror();
    let token = Token {
        id: 1,
        uri: String::from("ipfs://metadata"),
        creator: account(1),
        total_supply: 100,
        price_threshold: Some(250),
    };
    mirror.store_token(&token).unwrap();
    let read = mirror.get_token(1).unwrap().unwrap();
    assert_eq!(read.id, 1);
    assert_eq!(read.uri, "ipfs://metadata");
    assert_eq!(read.creator.as_bytes(), token.creator.as_bytes());
    assert_eq!(read.total_supply, 100);
    assert_eq!(read.price_threshold, Some(250));
    assert!(mirror.get_token(2).unwrap().is_none());
}

#[test]
fn token_overwrite_keeps_identity() {
    let mut mirror = fresh_mirror();
    let first = Token {
        id: 9,
        uri: String::from("ipfs://one"),
        creator: account(1),
        total_supply: 1,
        price_threshold: None,
    };
    let second = Token {
        id: 9,
        uri: String::from("ipfs://two"),
        creator: account(2),
        total_supply: 7,
        price_threshold: Some(5),
    };
    mirror.store_token(&first).unwrap();
    mirror.store_token(&second).unwrap();
    let read = mirror.get_token(9).unwrap().unwrap();
    assert_eq!(read.uri, "ipfs://two");
    assert_eq!(read.total_supply, 7);
}

#[test]
fn balance_defaults_to_zero_and_updates() {
    let mut mirror = fresh_mirror();
    let alice = account(1);
    assert_eq!(mirror.get_balance(&alice, 1).unwrap(), 0);
    mirror
        .update_balance(&Balance { account: account(1), token_id: 1, amount: 100 })
        .unwrap();
    assert_eq!(mirror.get_balance(&alice, 1).unwrap(), 100);
    // Another token or account still reads zero.
    assert_eq!(mirror.get_balance(&alice, 2).unwrap(), 0);
    assert_eq!(mirror.get_balance(&account(2), 1).unwrap(), 0);
}

#[test]
fn transfer_mirrors_both_sides() {
    let mut mirror = fresh_mirror();
    let alice = account(1);
    let bob = account(2);
    mirror
        .update_balance(&Balance { account: account(1), token_id: 1, amount: 100 })
        .unwrap();
    mirror.apply_transfer(&alice, &bob, 1, 50).unwrap();
    assert_eq!(mirror.get_balance(&alice, 1).unwrap(), 50);
    assert_eq!(mirror.get_balance(&bob, 1).unwrap(), 50);
}

#[test]
fn oversized_debit_clamps_to_zero() {
    let mut mirror = fresh_mirror();
    let alice = account(1);
    let bob = account(2);
    mirror
        .update_balance(&Balance { account: account(1), token_id: 1, amount: 30 })
        .unwrap();
    // Subtracting more than the stored amount clamps to zero, never wraps.
    mirror.apply_transfer(&alice, &bob, 1, 50).unwrap();
    assert_eq!(mirror.get_balance(&alice, 1).unwrap(), 0);
    assert_eq!(mirror.get_balance(&bob, 1).unwrap(), 50);
}

#[test]
fn oversized_credit_saturates() {
    let mut mirror = fresh_mirror();
    let alice = account(1);
    let bob = account(2);
    mirror
        .update_balance(&Balance { account: account(1), token_id: 1, amount: 10 })
        .unwrap();
    mirror
        .update_balance(&Balance { account: account(2), token_id: 1, amount: u128::MAX })
        .unwrap();
    mirror.apply_transfer(&alice, &bob, 1, 10).unwrap();
    assert_eq!(mirror.get_balance(&alice, 1).unwrap(), 0);
    assert_eq!(mirror.get_balance(&bob, 1).unwrap(), u128::MAX);
}

#[test]
fn sell_listener_fires_on_qualifying_price() {
    let mut mirror = fresh_mirror();
    mirror
        .create_price_listener(1, 100, PriceAction::Sell { amount: 10, min_price: 100 })
        .unwrap();
    assert!(mirror.process_price_update(1, 150).unwrap());
    assert!(!mirror.process_price_update(1, 90).unwrap());
}

#[test]
fn buy_listener_respects_max_price() {
    let mut mirror = fresh_mirror();
    mirror
        .create_price_listener(1, 150, PriceAction::Buy { amount: 5, max_price: 200 })
        .unwrap();
    assert!(mirror.process_price_update(1, 180).unwrap());
    // Above the maximum, even though the target is met.
    assert!(!mirror.process_price_update(1, 250).unwrap());
    // Below the target.
    assert!(!mirror.process_price_update(1, 100).unwrap());
}

#[test]
fn transfer_listener_fires_at_target() {
    let mut mirror = fresh_mirror();
    mirror
        .create_price_listener(1, 75, PriceAction::Transfer { to: account(9), amount: 2 })
        .unwrap();
    assert!(mirror.process_price_update(1, 75).unwrap());
    assert!(!mirror.process_price_update(1, 74).unwrap());
}

#[test]
fn disabled_listener_never_fires() {
    let mut mirror = fresh_mirror();
    let listener = PriceListener {
        token_id: 1,
        target_price: 100,
        action: PriceAction::Sell { amount: 10, min_price: 100 },
        enabled: false,
    };
    mirror.set_price_listener(&listener).unwrap();
    assert!(!mirror.process_price_update(1, 150).unwrap());
    assert!(!mirror.process_price_update(1, u128::MAX).unwrap());
}

#[test]
fn missing_listener_never_fires() {
    let mirror = fresh_mirror();
    assert!(!mirror.process_price_update(42, u128::MAX).unwrap());
}

#[test]
fn listener_upsert_keeps_one_per_token() {
    let mut mirror = fresh_mirror();
    mirror
        .create_price_listener(1, 100, PriceAction::Sell { amount: 10, min_price: 100 })
        .unwrap();
    mirror
        .create_price_listener(1, 500, PriceAction::Buy { amount: 1, max_price: 600 })
        .unwrap();
    let listeners = mirror.get_price_listeners().unwrap();
    assert_eq!(listeners.len(), 1);
    assert_eq!(listeners[0].target_price, 500);
    // The earlier sell listener is gone: its firing price no longer fires.
    assert!(!mirror.process_price_update(1, 150).unwrap());
    assert!(mirror.process_price_update(1, 550).unwrap());
}

#[test]
fn listeners_enumerate_all_tokens() {
    let mut mirror = fresh_mirror();
    mirror
        .create_price_listener(1, 10, PriceAction::Sell { amount: 1, min_price: 1 })
        .unwrap();
    mirror
        .create_price_listener(2, 20, PriceAction::Buy { amount: 1, max_price: 100 })
        .unwrap();
    mirror
        .create_price_listener(3, 30, PriceAction::Transfer { to: account(4), amount: 1 })
        .unwrap();
    let mut listeners = mirror.get_price_listeners().unwrap();
    listeners.sort_by_key(|l| l.token_id);
    assert_eq!(listeners.len(), 3);
    assert_eq!(listeners[0].token_id, 1);
    assert_eq!(listeners[1].token_id, 2);
    assert_eq!(listeners[2].token_id, 3);
    assert!(listeners.iter().all(|l| l.enabled));
}

#[test]
fn contract_address_round_trip() {
    let mut mirror = fresh_mirror();
    assert!(mirror.get_contract_address().unwrap().is_none());
    mirror.store_contract_address(&account(0xCD)).unwrap();
    let read = mirror.get_contract_address().unwrap().unwrap();
    assert_eq!(read.as_bytes(), &[0xCDu8; 32]);
}

#[test]
fn sync_records_contract_address() {
    let mut mirror = fresh_mirror();
    mirror.sync_from_blockchain(&account(0x11)).unwrap();
    let read = mirror.get_contract_address().unwrap().unwrap();
    assert_eq!(read.as_bytes(), &[0x11u8; 32]);
    mirror.close().unwrap();
}

#[test]
fn price_update_is_plain_data() {
    let update = PriceUpdate { token_id: 3, price: 99 };
    let copy = update;
    assert_eq!(copy, PriceUpdate { token_id: 3, price: 99 });
}
