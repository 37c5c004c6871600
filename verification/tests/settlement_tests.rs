use soroban_marketplace::errors::MarketplaceError;
use soroban_marketplace::recipients::validate_recipients;
use soroban_marketplace::settlement::{settle, RoyaltyInfo};
use soroban_marketplace::batch::ListingRules;
use soroban_marketplace::creation::create_listing;
use soroban_marketplace::guards::{ListingLocks, RevokedArtists};
use soroban_marketplace::pause::PauseState;
use soroban_marketplace::purchase::{buy_artwork, PurchaseOutcome};
use soroban_marketplace::settlement::Settlement;
use soroban_marketplace::types::{AccountId, BatchCreateListingInput, CollectionStandard, Recipient};
use soroban_marketplace::whitelist::TokenRegistry;

const ARTIST: AccountId = AccountId(1);
const COLLAB: AccountId = AccountId(2);
const COLLAB2: AccountId = AccountId(3);
const ROYALTY_RECEIVER: AccountId = AccountId(9);

fn one(address: AccountId, percentage: u32) -> Vec<Recipient> {
    vec![Recipient { address, percentage }]
}

fn valid_recipients() -> Vec<Recipient> {
    one(ARTIST, 10_000)
}

// ── Recipient validation ────────────────────────────────────────────────────

#[test]
fn test_validate_recipients_exactly_10000_bps_succeeds() {
    assert_eq!(validate_recipients(&one(ARTIST, 10_000), 0), Ok(()));
}

#[test]
fn test_validate_recipients_10001_bps_rejected() {
    let r = vec![
        Recipient { address: ARTIST, percentage: 5_001 },
        Recipient { address: COLLAB, percentage: 5_000 },
    ];
    let err = validate_recipients(&r, 0).unwrap_err();
    assert_eq!(err, MarketplaceError::RoyaltyExceedsLimit);
    assert_eq!(err.code(), 26);
}

#[test]
fn test_validate_recipients_empty_succeeds() {
    // An empty payee list trips InvalidSplit (#7), not RoyaltyExceedsLimit.
    let err = validate_recipients(&Vec::new(), 0).unwrap_err();
    assert_eq!(err.code(), 7);
}

#[test]
fn test_validate_recipients_single_recipient_at_limit_with_protocol_fee() {
    assert_eq!(validate_recipients(&one(ARTIST, 9_500), 0), Ok(()));
    assert_eq!(validate_recipients(&one(ARTIST, 9_500), 500), Ok(()));
}

#[test]
fn test_validate_recipients_exceeds_limit_with_protocol_fee() {
    assert_eq!(validate_recipients(&one(ARTIST, 5_000), 500), Ok(()));
    let err = validate_recipients(&one(ARTIST, 10_001), 500).unwrap_err();
    assert_eq!(err.code(), 26);
}

#[test]
fn test_err_invalid_split_empty_recipients() {
    assert_eq!(validate_recipients(&Vec::new(), 0), Err(MarketplaceError::InvalidSplit));
}

#[test]
fn test_err_too_many_recipients() {
    let r: Vec<Recipient> = (10..15u64)
        .map(|a| Recipient { address: AccountId(a), percentage: 2_000 })
        .collect();
    let err = validate_recipients(&r, 0).unwrap_err();
    assert_eq!(err, MarketplaceError::TooManyRecipients);
    assert_eq!(err.code(), 8);
}

#[test]
fn test_create_listing_too_many_recipients() {
    let r: Vec<Recipient> = (20..25u64)
        .map(|a| Recipient { address: AccountId(a), percentage: 2_000 })
        .collect();
    assert_eq!(validate_recipients(&r, 0).unwrap_err().code(), 8);
}

#[test]
fn test_recipient_percentage_sum_exceeds_10000_panics() {
    let r = vec![
        Recipient { address: ARTIST, percentage: 6_000 },
        Recipient { address: COLLAB, percentage: 5_000 },
    ];
    assert_eq!(validate_recipients(&r, 500).unwrap_err().code(), 26);
}

#[test]
fn test_zero_recipient_bps_panics() {
    let err = validate_recipients(&one(ARTIST, 0), 0).unwrap_err();
    assert_eq!(err, MarketplaceError::ZeroRecipientBps);
    assert_eq!(err.code(), 43);
}

#[test]
fn test_duplicate_recipient_panics() {
    let r = vec![
        Recipient { address: ARTIST, percentage: 5_000 },
        Recipient { address: ARTIST, percentage: 5_000 },
    ];
    let err = validate_recipients(&r, 0).unwrap_err();
    assert_eq!(err, MarketplaceError::DuplicateRecipient);
    assert_eq!(err.code(), 44);
}

#[test]
fn recipients_four_payees_are_the_limit() {
    let r: Vec<Recipient> = (30..34u64)
        .map(|a| Recipient { address: AccountId(a), percentage: 2_500 })
        .collect();
    assert_eq!(validate_recipients(&r, 0), Ok(()));
}

#[test]
fn recipients_checks_run_in_order() {
    // Five payees, one of them with a zero share: the count is reported first.
    let mut r: Vec<Recipient> = (40..45u64)
        .map(|a| Recipient { address: AccountId(a), percentage: 1_000 })
        .collect();
    r[2].percentage = 0;
    assert_eq!(validate_recipients(&r, 0), Err(MarketplaceError::TooManyRecipients));
    // A zero share is reported before a duplicate.
    let r = vec![
        Recipient { address: ARTIST, percentage: 1_000 },
        Recipient { address: ARTIST, percentage: 0 },
    ];
    assert_eq!(validate_recipients(&r, 0), Err(MarketplaceError::ZeroRecipientBps));
    // A duplicate is reported before the sum.
    let r = vec![
        Recipient { address: ARTIST, percentage: 9_000 },
        Recipient { address: ARTIST, percentage: 9_000 },
    ];
    assert_eq!(validate_recipients(&r, 0), Err(MarketplaceError::DuplicateRecipient));
}

// ── Settlement ──────────────────────────────────────────────────────────────

const BUYER: AccountId = AccountId(20);
const TOKEN: AccountId = AccountId(50);
const COLLECTION: AccountId = AccountId(60);
const CONTRACT: AccountId = AccountId(99);

/// Lists token 1 of the collection at `price` with the protocol fee `fee`
/// snapshotted, and sells it to a buyer.
fn sell(
    price: i128,
    recipients: Vec<Recipient>,
    fee: u32,
    treasury_set: bool,
    royalty: Option<RoyaltyInfo>,
) -> Result<Settlement, MarketplaceError> {
    let req = BatchCreateListingInput {
        price,
        currency: "XLM".to_string(),
        token: TOKEN,
        collection: COLLECTION,
        token_id: 1,
        quantity: 1,
        recipients,
        expires_at: None,
    };
    let rules = ListingRules { price_bounds: None, protocol_fee_bps: fee, min_duration: None, max_duration: None, now: 0 };
    let registry = TokenRegistry::new();
    let mut listing = create_listing(
        1, ARTIST, req, CollectionStandard::Erc721, &rules, &PauseState::new(), &RevokedArtists::new(),
        &registry, CONTRACT, 1,
    )?;
    let r = buy_artwork(
        &mut listing, BUYER, 0, &PauseState::new(), &mut ListingLocks::new(), &registry, CONTRACT,
        treasury_set, royalty,
    )?;
    match r {
        PurchaseOutcome::Sold(st) => Ok(st),
        PurchaseOutcome::Expired => panic!("the listing has no expiry"),
    }
}

#[test]
fn test_set_treasury_and_protocol_fee() {
    let price = 10_000_000_i128;
    let s = sell(price, one(ARTIST, 9_500), 500, true, None).unwrap();
    assert_eq!(s.protocol_fee, 500_000);
    assert_eq!(s.payouts, vec![9_500_000]);
    assert_eq!(s.royalty_amount, 0);
    assert_eq!(s.royalty_receiver, None);
}

#[test]
fn test_buy_artwork_no_treasury_fee_set() {
    // The listing snapshotted a zero fee; no treasury is configured either.
    let price = 1_000_000_i128;
    let s = sell(price, valid_recipients(), 0, false, None).unwrap();
    assert_eq!(s.protocol_fee, 0);
    assert_eq!(s.payouts, vec![price]);
    // Without a treasury no fee is charged even with a non-zero snapshot.
    let s = settle(price, ARTIST, &valid_recipients(), 300, false, None).unwrap();
    assert_eq!(s.protocol_fee, 0);
    assert_eq!(s.payouts, vec![price]);
}

#[test]
fn test_buy_artwork_complex_split() {
    let price = 10_000_000_i128;
    let r = vec![
        Recipient { address: ARTIST, percentage: 3_300 },
        Recipient { address: COLLAB, percentage: 3_300 },
        Recipient { address: COLLAB2, percentage: 3_400 },
    ];
    let s = sell(price, r, 0, false, None).unwrap();
    assert_eq!(s.payouts.iter().sum::<i128>(), price);
    assert_eq!(s.payouts, vec![3_300_000, 3_300_000, 3_400_000]);
}

#[test]
fn test_buy_artwork_transfers_correct_amounts_to_recipients() {
    let price = 10_000_000_i128;
    let s = sell(price, valid_recipients(), 0, false, None).unwrap();
    assert_eq!(s.payouts, vec![price]);
    assert_eq!(s.protocol_fee + s.royalty_amount, 0);
}

#[test]
fn test_pre_and_post_fee_change_listings_settlement_math() {
    let price = 10_000_000_i128;
    let a = sell(price, valid_recipients(), 0, true, None).unwrap();
    assert_eq!(a.protocol_fee, 0);
    let b = sell(price, one(ARTIST, 9_800), 200, true, None).unwrap();
    assert_eq!(b.protocol_fee, 200_000);
    assert_eq!(b.payouts, vec![9_800_000]);
}

#[test]
fn test_buy_uses_snapshotted_fee_not_raised_global() {
    let s = sell(10_000_000, valid_recipients(), 0, true, None).unwrap();
    assert_eq!(s.protocol_fee, 0);
}

#[test]
fn test_buy_artwork_emits_royalty_paid_with_recipient_breakdown() {
    let price = 10_000_000_i128;
    let r = vec![
        Recipient { address: ARTIST, percentage: 7_000 },
        Recipient { address: COLLAB, percentage: 2_500 },
    ];
    let s = sell(price, r, 500, true, None).unwrap();
    let expected_fee = price * 500 / 10_000;
    assert_eq!(s.protocol_fee, expected_fee);
    assert_eq!(s.payouts, vec![6_650_000, 2_850_000]);
    assert_eq!(s.payouts[0] + s.payouts[1], price - expected_fee);
}

#[test]
fn test_finalize_auction_emits_royalty_paid_with_auction_id() {
    let winning_bid = 2_000_000_i128;
    let s = settle(winning_bid, ARTIST, &one(ARTIST, 9_500), 500, true, None).unwrap();
    let expected_fee = winning_bid * 500 / 10_000;
    assert_eq!(s.protocol_fee, expected_fee);
    assert_eq!(s.payouts, vec![winning_bid - expected_fee]);
}

#[test]
fn test_accept_offer_emits_royalty_paid_zero_fee() {
    let offer_amount = 5_000_000_i128;
    let s = settle(offer_amount, ARTIST, &valid_recipients(), 0, false, None).unwrap();
    assert_eq!(s.protocol_fee, 0);
    assert_eq!(s.payouts, vec![offer_amount]);
}

#[test]
fn test_royalty_paid_includes_collection_royalty_receiver() {
    let price = 10_000_000_i128;
    let royalty = Some(RoyaltyInfo { receiver: ROYALTY_RECEIVER, bps: 1_000 });
    let s = settle(price, ARTIST, &one(ARTIST, 9_500), 500, true, royalty).unwrap();
    let expected_royalty = 1_000_000_i128;
    let expected_fee = 450_000_i128;
    assert_eq!(s.royalty_receiver, Some(ROYALTY_RECEIVER));
    assert_eq!(s.royalty_amount, expected_royalty);
    assert_eq!(s.protocol_fee, expected_fee);
    assert_eq!(s.payouts, vec![price - expected_royalty - expected_fee]);
}

#[test]
fn test_buy_artwork_overflow_price_reverts_with_arithmetic_overflow() {
    let royalty = Some(RoyaltyInfo { receiver: ROYALTY_RECEIVER, bps: 10_000 });
    let err = sell(i128::MAX, valid_recipients(), 0, false, royalty).unwrap_err();
    assert_eq!(err, MarketplaceError::ArithmeticOverflow);
    assert_eq!(err.code(), 40);
}

#[test]
fn test_buy_artwork_fee_overflow_reverts_with_arithmetic_overflow() {
    let near_max = i128::MAX / 2 + 1;
    let royalty = Some(RoyaltyInfo { receiver: ROYALTY_RECEIVER, bps: 2 });
    let err = sell(near_max, valid_recipients(), 0, false, royalty).unwrap_err();
    assert_eq!(err.code(), 40);
}

#[test]
fn test_settlement_basis_points_boundary_splits() {
    let full = valid_recipients();
    assert_eq!(full[0].percentage, 10_000);
    let split = vec![
        Recipient { address: ARTIST, percentage: 7_000 },
        Recipient { address: COLLAB, percentage: 3_000 },
    ];
    let total: u32 = split.iter().fold(0u32, |acc, r| acc.saturating_add(r.percentage));
    assert_eq!(total, 10_000);
    assert_eq!(validate_recipients(&split, 0), Ok(()));
    let s = settle(1_000_001, ARTIST, &split, 0, false, None).unwrap();
    assert_eq!(s.payouts, vec![700_000, 300_001]);
}

#[test]
fn settlement_non_positive_price_is_refused() {
    assert_eq!(
        settle(0, ARTIST, &valid_recipients(), 0, false, None).unwrap_err(),
        MarketplaceError::InvalidPrice
    );
    assert_eq!(
        settle(-5, ARTIST, &valid_recipients(), 0, false, None).unwrap_err().code(),
        2
    );
}

#[test]
fn settlement_royalty_skipped_when_seller_is_receiver_or_rate_zero() {
    let price = 1_000_000_i128;
    let own = Some(RoyaltyInfo { receiver: ARTIST, bps: 1_000 });
    let s = settle(price, ARTIST, &valid_recipients(), 0, false, own).unwrap();
    assert_eq!(s.royalty_amount, 0);
    assert_eq!(s.royalty_receiver, None);
    let zero = Some(RoyaltyInfo { receiver: ROYALTY_RECEIVER, bps: 0 });
    let s = settle(price, ARTIST, &valid_recipients(), 0, false, zero).unwrap();
    assert_eq!(s.royalty_amount, 0);
    assert_eq!(s.payouts, vec![price]);
}

#[test]
fn settlement_conserves_the_price() {
    let r = vec![
        Recipient { address: ARTIST, percentage: 3_333 },
        Recipient { address: COLLAB, percentage: 3_333 },
        Recipient { address: COLLAB2, percentage: 2_334 },
        Recipient { address: AccountId(77), percentage: 1_000 },
    ];
    let royalty = Some(RoyaltyInfo { receiver: ROYALTY_RECEIVER, bps: 777 });
    for price in [1i128, 7, 99_999, 123_456_789, 10_000_000_000] {
        let s = settle(price, ARTIST, &r, 0, true, royalty).unwrap();
        let total: i128 = s.royalty_amount + s.protocol_fee + s.payouts.iter().sum::<i128>();
        assert_eq!(total, price);
        assert!(s.payouts.iter().all(|p| *p >= 0));
    }
}

#[test]
fn settlement_royalty_rate_above_100_percent_refused() {
    let royalty = Some(RoyaltyInfo { receiver: ROYALTY_RECEIVER, bps: 10_001 });
    let err = settle(1_000_000, ARTIST, &valid_recipients(), 0, false, royalty).unwrap_err();
    assert_eq!(err, MarketplaceError::InvalidRoyalty);
    assert_eq!(err.code(), 24);
    assert_eq!(sell(1_000_000, valid_recipients(), 0, false, royalty).unwrap_err().code(), 24);
}
