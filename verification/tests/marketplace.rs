use custody_core::identity::Identity;
use custody_core::nft_marketplace::{MarketplaceError, MarketplaceState};

fn id(b: u8) -> Identity {
    Identity { bytes: [b; 32] }
}

fn fresh_market(fee_bp: u16) -> MarketplaceState {
    MarketplaceState::initialize(id(1), id(2), fee_bp, 0).unwrap()
}

#[test]
fn scenario_buy_splits_price_and_retires_listing() {
    let mut m = fresh_market(250);
    let ev = m.list_nft(id(3), id(9), 1000, 7).unwrap();
    assert_eq!(ev.listing_id, 1);
    assert_eq!(ev.price, 1000);
    assert_eq!(m.listing_count, 1);
    assert!(m.listings[0].active);

    let out = m.buy_nft(id(4), 10_000, id(9)).unwrap();
    assert_eq!(out.seller_amount, 975);
    assert_eq!(out.platform_fee, 25);
    assert_eq!(out.seller_amount + out.platform_fee, 1000);
    assert_eq!(out.event.listing_id, 1);
    assert_eq!(out.event.seller, id(3));
    assert_eq!(out.event.buyer, id(4));
    assert_eq!(out.event.price, 1000);
    assert!(!m.listings[0].active);

    let again = m.buy_nft(id(5), 10_000, id(9)).unwrap_err();
    assert_eq!(again, MarketplaceError::ListingNotActive);
}

#[test]
fn scenario_cancel_by_seller_only() {
    let mut m = fresh_market(250);
    m.list_nft(id(3), id(9), 500, 7).unwrap();

    let e = m.cancel_listing(id(4), id(9)).unwrap_err();
    assert_eq!(e, MarketplaceError::Unauthorized);
    assert!(m.listings[0].active);

    let ev = m.cancel_listing(id(3), id(9)).unwrap();
    assert_eq!(ev.listing_id, 1);
    assert!(!m.listings[0].active);

    let e = m.cancel_listing(id(3), id(9)).unwrap_err();
    assert_eq!(e, MarketplaceError::ListingNotActive);
}

#[test]
fn fee_exact_truncation() {
    let mut m = fresh_market(250);
    m.list_nft(id(3), id(9), 999, 7).unwrap();
    let out = m.buy_nft(id(4), 999, id(9)).unwrap();
    // 999 * 250 / 10000 = 24 (truncated); the remainder goes to neither side.
    assert_eq!(out.platform_fee, 24);
    assert_eq!(out.seller_amount, 975);
    assert_eq!(out.seller_amount + out.platform_fee, 999);
}

#[test]
fn fee_zero_basis_points() {
    let mut m = fresh_market(0);
    m.list_nft(id(3), id(9), 1000, 7).unwrap();
    let out = m.buy_nft(id(4), 1000, id(9)).unwrap();
    assert_eq!(out.platform_fee, 0);
    assert_eq!(out.seller_amount, 1000);
}

#[test]
fn set_platform_fee_caps_at_ten_percent() {
    let mut m = fresh_market(250);
    let e = m.set_platform_fee(id(1), 1001).unwrap_err();
    assert_eq!(e, MarketplaceError::FeeTooHigh);
    assert_eq!(m.platform_fee_percent, 250);

    m.set_platform_fee(id(1), 1000).unwrap();
    assert_eq!(m.platform_fee_percent, 1000);
}

#[test]
fn set_platform_fee_requires_admin() {
    let mut m = fresh_market(250);
    let e = m.set_platform_fee(id(8), 100).unwrap_err();
    assert_eq!(e, MarketplaceError::Unauthorized);
    assert_eq!(m.platform_fee_percent, 250);
}

#[test]
fn initialize_rejects_fee_above_cap() {
    let e = MarketplaceState::initialize(id(1), id(2), 1001, 0).unwrap_err();
    assert_eq!(e, MarketplaceError::FeeTooHigh);
    assert!(MarketplaceState::initialize(id(1), id(2), 1000, 0).is_ok());
}

#[test]
fn set_fee_recipient_requires_admin() {
    let mut m = fresh_market(250);
    let e = m.set_fee_recipient(id(8), id(6)).unwrap_err();
    assert_eq!(e, MarketplaceError::Unauthorized);
    assert_eq!(m.fee_recipient, id(2));

    m.set_fee_recipient(id(1), id(6)).unwrap();
    assert_eq!(m.fee_recipient, id(6));
}

#[test]
fn listing_slots_are_never_reused() {
    let mut m = fresh_market(250);
    m.list_nft(id(3), id(9), 500, 7).unwrap();
    m.cancel_listing(id(3), id(9)).unwrap();

    let e = m.list_nft(id(3), id(9), 700, 7).unwrap_err();
    assert_eq!(e, MarketplaceError::AlreadyListed);
    assert_eq!(m.listings.len(), 1);
}

#[test]
fn list_rejects_zero_price() {
    let mut m = fresh_market(250);
    let e = m.list_nft(id(3), id(9), 0, 7).unwrap_err();
    assert_eq!(e, MarketplaceError::InvalidPrice);
    assert_eq!(m.listing_count, 0);
}

#[test]
fn buy_rejects_self_and_poor_and_missing() {
    let mut m = fresh_market(250);
    m.list_nft(id(3), id(9), 1000, 7).unwrap();

    let e = m.buy_nft(id(3), 10_000, id(9)).unwrap_err();
    assert_eq!(e, MarketplaceError::CannotBuyOwnNFT);

    let e = m.buy_nft(id(4), 999, id(9)).unwrap_err();
    assert_eq!(e, MarketplaceError::InsufficientFunds);

    let e = m.buy_nft(id(4), 10_000, id(8)).unwrap_err();
    assert_eq!(e, MarketplaceError::ListingNotFound);

    assert!(m.listings[0].active);
}

#[test]
fn update_price_rules() {
    let mut m = fresh_market(250);
    m.list_nft(id(3), id(9), 1000, 7).unwrap();

    let e = m.update_price(id(4), id(9), 1500).unwrap_err();
    assert_eq!(e, MarketplaceError::Unauthorized);

    let e = m.update_price(id(3), id(9), 0).unwrap_err();
    assert_eq!(e, MarketplaceError::InvalidPrice);
    assert_eq!(m.listings[0].price, 1000);

    m.update_price(id(3), id(9), 1500).unwrap();
    assert_eq!(m.listings[0].price, 1500);

    m.cancel_listing(id(3), id(9)).unwrap();
    let e = m.update_price(id(3), id(9), 2000).unwrap_err();
    assert_eq!(e, MarketplaceError::ListingNotActive);
}

#[test]
fn listing_counter_never_wraps() {
    let mut m = fresh_market(250);
    m.listing_count = u64::MAX;
    let e = m.list_nft(id(3), id(9), 1000, 7).unwrap_err();
    assert_eq!(e, MarketplaceError::MathOverflow);
    assert_eq!(m.listing_count, u64::MAX);
    assert_eq!(m.listings.len(), 0);
}

#[test]
fn listing_ids_increase() {
    let mut m = fresh_market(250);
    let a = m.list_nft(id(3), id(9), 100, 7).unwrap();
    let b = m.list_nft(id(3), id(10), 100, 7).unwrap();
    let c = m.list_nft(id(4), id(11), 100, 7).unwrap();
    assert_eq!((a.listing_id, b.listing_id, c.listing_id), (1, 2, 3));
}
