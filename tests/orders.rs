use ethers::signers::{LocalWallet, Signer};
use ethers::utils::hash_message;
use quay_market::address::WalletAddress;
use quay_market::chain::{order_status, ChainError, OnChainStatus, OrderStatus};
use quay_market::order::{ItemType, Order, OrderError, OrderItem, OrderKind, OrderType};
use quay_market::registry::{OrderRegistry, RegistryError};

const KEY_A: &str = "0123456789012345678901234567890123456789012345678901234567890123";
const KEY_B: &str = "4c0883a69102937d6231471b5dbb6204fe5129617082792ae468d01a3f362318";
const NOW: u64 = 1_700_000_000;
const ONE_AND_A_HALF: u128 = 1_500_000_000_000_000_000;

fn wallet(key: &str) -> LocalWallet {
    key.parse().unwrap()
}

fn address_of(w: &LocalWallet) -> WalletAddress {
    WalletAddress::from_bytes(&w.address().as_bytes().to_vec()).unwrap()
}

fn collection() -> WalletAddress {
    WalletAddress::normalize("0xbc4ca0eda7647a8ab7c2061c2e118a18a936f13d").unwrap()
}

fn token_item(id: u128, recipient: &WalletAddress) -> OrderItem {
    OrderItem {
        item_type: ItemType::Erc721,
        token_address: Some(collection()),
        identifier: Some(id),
        amount_start: 1,
        amount_end: 1,
        recipient: recipient.clone(),
    }
}

fn coin_item(amount: u128, recipient: &WalletAddress) -> OrderItem {
    OrderItem {
        item_type: ItemType::NativeCurrency,
        token_address: None,
        identifier: None,
        amount_start: amount,
        amount_end: amount,
        recipient: recipient.clone(),
    }
}

fn unsigned(offerer: &WalletAddress, offer: Vec<OrderItem>, consideration: Vec<OrderItem>, salt: u8) -> Order {
    Order {
        offerer: offerer.clone(),
        zone: None,
        offer_items: offer,
        consideration_items: consideration,
        order_type: OrderType::FullOpen,
        start_time: NOW,
        end_time: NOW + 86_400,
        salt: vec![salt; 32],
        signature: Vec::new(),
    }
}

fn signed_by(w: &LocalWallet, mut o: Order) -> Order {
    o.signature = w.sign_hash(hash_message(o.message())).unwrap().to_vec();
    o
}

fn listing(w: &LocalWallet, salt: u8) -> Order {
    let a = address_of(w);
    signed_by(w, unsigned(&a, vec![token_item(42, &a)], vec![coin_item(ONE_AND_A_HALF, &a)], salt))
}

#[test]
fn listing_is_registered_and_read_back() {
    let w = wallet(KEY_A);
    let a = address_of(&w);
    let order = listing(&w, 1);
    assert_eq!(order.classify(), OrderKind::Listing);
    let mut reg = OrderRegistry::new();
    assert_eq!(reg.create(order.clone(), &a, NOW), Ok(1));
    let listed = reg.list_listings();
    assert_eq!(listed.len(), 1);
    assert_eq!(listed[0], order);
    assert_eq!(listed[0].offer_items[0].item_type, ItemType::Erc721);
    assert_eq!(listed[0].offer_items[0].identifier, Some(42));
    assert_eq!(listed[0].offer_items[0].amount_start, 1);
    assert_eq!(listed[0].consideration_items[0].item_type, ItemType::NativeCurrency);
    assert_eq!(listed[0].consideration_items[0].amount_start, ONE_AND_A_HALF);
    assert_eq!(listed[0].validate(NOW), Ok(()));
    assert!(reg.list_offers().is_empty());
}

#[test]
fn listings_come_newest_first() {
    let w = wallet(KEY_A);
    let a = address_of(&w);
    let mut reg = OrderRegistry::new();
    assert_eq!(reg.create(listing(&w, 1), &a, NOW), Ok(1));
    assert_eq!(reg.create(listing(&w, 2), &a, NOW), Ok(2));
    let listed = reg.list_listings();
    assert_eq!(listed.len(), 2);
    assert_eq!(listed[0].salt, vec![2u8; 32]);
    assert_eq!(listed[1].salt, vec![1u8; 32]);
}

#[test]
fn duplicate_offerer_and_salt_is_refused() {
    let w = wallet(KEY_A);
    let a = address_of(&w);
    let mut reg = OrderRegistry::new();
    assert_eq!(reg.create(listing(&w, 7), &a, NOW), Ok(1));
    let mut again = unsigned(&a, vec![token_item(43, &a)], vec![coin_item(5, &a)], 7);
    again = signed_by(&w, again);
    assert_eq!(reg.create(again, &a, NOW), Err(RegistryError::Duplicate));
    assert_eq!(reg.len(), 1);
    assert_eq!(reg.list_listings().len(), 1);
}

#[test]
fn order_of_someone_else_is_unauthorized() {
    let w = wallet(KEY_A);
    let b = address_of(&wallet(KEY_B));
    let mut reg = OrderRegistry::new();
    assert_eq!(reg.create(listing(&w, 1), &b, NOW), Err(RegistryError::Unauthorized));
    assert_eq!(reg.len(), 0);
}

#[test]
fn order_signed_by_another_wallet_is_refused() {
    let w = wallet(KEY_A);
    let a = address_of(&w);
    let o = unsigned(&a, vec![token_item(42, &a)], vec![coin_item(10, &a)], 3);
    let forged = signed_by(&wallet(KEY_B), o);
    assert_eq!(forged.validate(NOW), Err(OrderError::SignatureMismatch));
    let mut reg = OrderRegistry::new();
    assert_eq!(
        reg.create(forged, &a, NOW),
        Err(RegistryError::ValidationFailed(OrderError::SignatureMismatch))
    );
}

#[test]
fn altered_order_no_longer_verifies() {
    let w = wallet(KEY_A);
    let mut o = listing(&w, 1);
    assert_eq!(o.validate(NOW), Ok(()));
    o.consideration_items[0].amount_end = 1;
    assert_eq!(o.validate(NOW), Err(OrderError::SignatureMismatch));
}

#[test]
fn malformed_orders_are_refused() {
    let w = wallet(KEY_A);
    let a = address_of(&w);
    let empty = signed_by(&w, unsigned(&a, vec![], vec![coin_item(10, &a)], 1));
    assert_eq!(empty.validate(NOW), Err(OrderError::MalformedOrder));
    let mut backwards = unsigned(&a, vec![token_item(1, &a)], vec![coin_item(10, &a)], 1);
    backwards.end_time = backwards.start_time;
    assert_eq!(signed_by(&w, backwards).validate(NOW), Err(OrderError::MalformedOrder));
    let mut two = token_item(1, &a);
    two.amount_end = 2;
    let bad_item = signed_by(&w, unsigned(&a, vec![two], vec![coin_item(10, &a)], 1));
    assert_eq!(bad_item.validate(NOW), Err(OrderError::MalformedOrder));
    let stale = listing(&w, 1);
    assert_eq!(stale.validate(NOW + 86_400 * 2), Err(OrderError::MalformedOrder));
    let mut restricted = unsigned(&a, vec![token_item(1, &a)], vec![coin_item(10, &a)], 1);
    restricted.order_type = OrderType::FullRestricted;
    assert_eq!(signed_by(&w, restricted).validate(NOW), Err(OrderError::MalformedOrder));
    let mut reg = OrderRegistry::new();
    assert_eq!(
        reg.create(empty, &a, NOW),
        Err(RegistryError::ValidationFailed(OrderError::MalformedOrder))
    );
}

#[test]
fn offers_are_classified_and_listed() {
    let w = wallet(KEY_A);
    let a = address_of(&w);
    let fee = address_of(&wallet(KEY_B));
    let offer = signed_by(
        &w,
        unsigned(&a, vec![coin_item(100, &fee)], vec![token_item(42, &a), coin_item(2, &fee)], 9),
    );
    assert_eq!(offer.classify(), OrderKind::Offer);
    let mut reg = OrderRegistry::new();
    assert_eq!(reg.create(offer.clone(), &a, NOW), Ok(1));
    assert_eq!(reg.list_offers(), vec![offer]);
    assert!(reg.list_listings().is_empty());
}

#[test]
fn unrecognized_orders_are_refused() {
    let w = wallet(KEY_A);
    let a = address_of(&w);
    let b = address_of(&wallet(KEY_B));
    let swap = signed_by(&w, unsigned(&a, vec![token_item(1, &a)], vec![token_item(2, &a)], 1));
    assert_eq!(swap.classify(), OrderKind::Unrecognized);
    let elsewhere = signed_by(&w, unsigned(&a, vec![token_item(1, &a)], vec![coin_item(2, &b)], 1));
    assert_eq!(elsewhere.classify(), OrderKind::Unrecognized);
    let mut reg = OrderRegistry::new();
    assert_eq!(reg.create(swap, &a, NOW), Err(RegistryError::Unrecognized));
}

#[test]
fn order_message_layout() {
    let a = collection();
    let o = unsigned(&a, vec![token_item(42, &a)], vec![coin_item(ONE_AND_A_HALF, &a)], 0xee);
    let m = o.message();
    let item_len = 1 + 21 + 17 + 16 + 16 + 20;
    let no_token_item_len = 1 + 1 + 1 + 16 + 16 + 20;
    assert_eq!(m.len(), 20 + 1 + 8 + item_len + 8 + no_token_item_len + 1 + 8 + 8 + 32);
    assert_eq!(&m[0..20], &a.to_bytes()[..]);
    assert_eq!(m[20], 0);
    assert_eq!(&m[21..29], &[0, 0, 0, 0, 0, 0, 0, 1]);
    assert_eq!(m[29], 2);
    assert_eq!(m[30], 1);
    assert_eq!(*m.last().unwrap(), 0xee);
}

#[test]
fn chain_status_is_read() {
    let open = OnChainStatus { is_validated: true, is_cancelled: false, total_filled: 0, total_size: 0 };
    assert_eq!(order_status(Some(open), 100, 50), Ok(OrderStatus::Open));
    assert_eq!(order_status(Some(open), 100, 100), Ok(OrderStatus::Invalid));
    let filled = OnChainStatus { total_filled: 1, total_size: 1, ..open };
    assert_eq!(order_status(Some(filled), 100, 50), Ok(OrderStatus::Filled));
    let cancelled = OnChainStatus { is_cancelled: true, ..filled };
    assert_eq!(order_status(Some(cancelled), 100, 50), Ok(OrderStatus::Cancelled));
    assert_eq!(order_status(None, 100, 50), Err(ChainError::ChainUnavailable));
}

#[test]
fn status_changes_leave_order_content_alone() {
    let w = wallet(KEY_A);
    let a = address_of(&w);
    let order = listing(&w, 1);
    let mut reg = OrderRegistry::new();
    assert_eq!(reg.status_of(1), None);
    assert_eq!(reg.create(order.clone(), &a, NOW), Ok(1));
    assert_eq!(reg.status_of(1), Some(OrderStatus::Open));
    assert!(reg.record_status(1, OrderStatus::Filled));
    assert!(!reg.record_status(2, OrderStatus::Cancelled));
    assert!(!reg.record_status(0, OrderStatus::Cancelled));
    assert_eq!(reg.status_of(1), Some(OrderStatus::Filled));
    let listed = reg.list_listings();
    assert_eq!(listed, vec![order]);
    assert_eq!(listed[0].validate(NOW), Ok(()));
}
