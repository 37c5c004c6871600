use soroban_marketplace::auction::Payment;
use soroban_marketplace::batch::ListingRules;
use soroban_marketplace::bid_history::BidHistory;
use soroban_marketplace::closing::{bid, finalize_auction, AuctionClose};
use soroban_marketplace::config::{
    CollectionFees, ProtocolConfig, DEFAULT_BID_HISTORY_CAP, DEFAULT_EXTENSION_TRIGGER,
    DEFAULT_EXTENSION_WINDOW, DEFAULT_MIN_BID_INCREMENT,
};
use soroban_marketplace::creation::{create_listing, open_auction};
use soroban_marketplace::errors::MarketplaceError;
use soroban_marketplace::guards::{ListingLocks, RevokedArtists};
use soroban_marketplace::index::{read_range, PagedIndex};
use soroban_marketplace::listing::PriceBounds;
use soroban_marketplace::market::Market;
use soroban_marketplace::migration::{LegacyStore, StoreMigration};
use soroban_marketplace::mocks::MockNft;
use soroban_marketplace::offer_sale::{accept_offer, cancel_listing, close_offer, make_offer};
use soroban_marketplace::offers::OfferAction;
use soroban_marketplace::pause::PauseState;
use soroban_marketplace::purchase::{buy_artwork, PurchaseOutcome};
use soroban_marketplace::revocation::cancel_artist_listings;
use soroban_marketplace::royalty_claims::{settlement_claims, ClaimKey, RoyaltyClaims};
use soroban_marketplace::settlement::{settle, RoyaltyInfo};
use soroban_marketplace::types::{
    AccountId, AuctionStatus, BatchCreateListingInput, CollectionStandard, Listing, ListingStatus,
    Offer, OfferStatus, Recipient,
};
use soroban_marketplace::updates::{
    set_listing_reservation, update_listing, update_listing_price, BatchUpdateListingInput,
};
use soroban_marketplace::whitelist::TokenRegistry;

const ADMIN: AccountId = AccountId(1);
const ARTIST: AccountId = AccountId(1);
const BUYER: AccountId = AccountId(2);
const BUYER2: AccountId = AccountId(3);
const BUYER3: AccountId = AccountId(4);
const TOKEN: AccountId = AccountId(50);
const OTHER_TOKEN: AccountId = AccountId(51);
const COLLECTION: AccountId = AccountId(60);
const CONTRACT: AccountId = AccountId(99);
const NOW: u64 = 1_000_000;
const MAX_TOTAL: u64 = 86_400;

fn valid_recipients(artist: AccountId) -> Vec<Recipient> {
    vec![Recipient { address: artist, percentage: 10_000 }]
}

fn registry_with(tokens: &[AccountId]) -> TokenRegistry {
    let mut reg = TokenRegistry::new();
    for t in tokens {
        reg.add(*t, ADMIN, 10);
    }
    reg
}

fn request(price: i128, token: AccountId, collection: AccountId, token_id: u64) -> BatchCreateListingInput {
    BatchCreateListingInput {
        price,
        currency: "XLM".to_string(),
        token,
        collection,
        token_id,
        quantity: 1,
        recipients: valid_recipients(ARTIST),
        expires_at: None,
    }
}

fn rules(fee: u32) -> ListingRules {
    ListingRules { price_bounds: None, protocol_fee_bps: fee, min_duration: None, max_duration: None, now: NOW }
}

fn new_listing(id: u64, artist: AccountId, price: i128) -> Listing {
    let mut req = request(price, TOKEN, COLLECTION, id);
    req.recipients = valid_recipients(artist);
    create_listing(
        id, artist, req, CollectionStandard::Erc721, &rules(0), &PauseState::new(),
        &RevokedArtists::new(), &registry_with(&[TOKEN]), CONTRACT, 1,
    )
    .unwrap()
}

fn offer(id: u64, offerer: AccountId, amount: i128) -> Offer {
    make_offer(
        &new_listing(1, ARTIST, 10_000_000), id, offerer, amount, TOKEN, None, 0, 1,
        &PauseState::new(), &registry_with(&[TOKEN]), CONTRACT,
    )
    .unwrap()
}

// ── Configuration ───────────────────────────────────────────────────────────

#[test]
fn test_admin_initializes_default_config() {
    let c = ProtocolConfig::new();
    assert_eq!(c.min_bid_increment, 1_000_000);
    assert_eq!(c.extension_window, 600);
    assert_eq!(c.extension_trigger, 0);
    assert_eq!(DEFAULT_MIN_BID_INCREMENT, 1_000_000);
    assert_eq!((DEFAULT_EXTENSION_WINDOW, DEFAULT_EXTENSION_TRIGGER), (600, 0));
    assert_eq!(c.bid_history_cap, DEFAULT_BID_HISTORY_CAP);
    assert_eq!(c.protocol_fee_bps, 0);
}

#[test]
fn test_set_min_bid_increment() {
    let mut c = ProtocolConfig::new();
    c.set_min_bid_increment(2_000_000).unwrap();
    assert_eq!(c.min_bid_increment, 2_000_000);
}

#[test]
fn test_set_min_bid_increment_zero_panics() {
    let mut c = ProtocolConfig::new();
    assert_eq!(c.set_min_bid_increment(0).unwrap_err().code(), 2);
    assert_eq!(c, ProtocolConfig::new());
}

#[test]
fn test_set_auction_extension_window_emits_event() {
    let mut c = ProtocolConfig::new();
    c.set_extension_window(900).unwrap();
    assert_eq!(c.extension_window, 900);
    assert_eq!(c.set_extension_window(0).unwrap_err(), MarketplaceError::InvalidExtensionWindow);
}

#[test]
fn test_set_auction_extension_trigger_emits_event() {
    let mut c = ProtocolConfig::new();
    c.set_extension_trigger(300);
    assert_eq!(c.extension_trigger, 300);
}

#[test]
fn test_set_treasury_fee_bounds() {
    let mut c = ProtocolConfig::new();
    assert_eq!(c.set_protocol_fee(500), Ok(()));
    assert_eq!(c.protocol_fee_bps, 500);
    assert_eq!(c.set_protocol_fee(1_001).unwrap_err().code(), 2);
    assert_eq!(c.protocol_fee_bps, 500);
}

#[test]
fn test_set_and_get_min_listing_duration() {
    let mut c = ProtocolConfig::new();
    c.set_min_listing_duration(3_600);
    assert_eq!(c.min_listing_duration, Some(3_600));
}

#[test]
fn test_set_and_get_max_listing_duration() {
    let mut c = ProtocolConfig::new();
    c.set_max_listing_duration(86_400).unwrap();
    assert_eq!(c.max_listing_duration, Some(86_400));
}

#[test]
fn test_clear_min_listing_duration() {
    let mut c = ProtocolConfig::new();
    c.set_min_listing_duration(3_600);
    c.clear_min_listing_duration();
    assert_eq!(c.min_listing_duration, None);
}

#[test]
fn test_clear_max_listing_duration() {
    let mut c = ProtocolConfig::new();
    c.set_max_listing_duration(86_400).unwrap();
    c.clear_max_listing_duration();
    assert_eq!(c.max_listing_duration, None);
    assert_eq!(c.set_max_listing_duration(0).unwrap_err().code(), 59);
}

#[test]
fn config_bid_history_cap_and_price_bounds() {
    let mut c = ProtocolConfig::new();
    assert_eq!(c.set_bid_history_cap(20), Ok(()));
    assert!(c.set_bid_history_cap(0).is_err());
    assert!(c.set_bid_history_cap(201).is_err());
    assert_eq!(c.set_price_bounds(5_000_000, 100_000_000), Ok(()));
    assert_eq!(c.price_bounds, Some(PriceBounds { min: 5_000_000, max: 100_000_000 }));
    assert!(c.set_price_bounds(10, 5).is_err());
    assert!(c.set_price_bounds(0, 5).is_err());
    c.set_max_extensions(3);
    assert_eq!(c.max_extensions, 3);
}

#[test]
fn test_set_collection_fee_bps_protocol_config_role_succeeds() {
    let mut fees = CollectionFees::new();
    assert_eq!(fees.get(COLLECTION), None);
    fees.set(COLLECTION, 250).unwrap();
    assert_eq!(fees.get(COLLECTION), Some(250));
}

#[test]
fn test_set_collection_fee_bps_over_10000_panics() {
    let mut fees = CollectionFees::new();
    assert_eq!(fees.set(COLLECTION, 10_001).unwrap_err().code(), 2);
    assert_eq!(fees.get(COLLECTION), None);
}

// ── Creation ────────────────────────────────────────────────────────────────

#[test]
fn test_create_listing_success() {
    let l = new_listing(1, ARTIST, 10_000_000);
    assert_eq!(l.status, ListingStatus::Active);
    assert_eq!(l.owner, None);
    assert_eq!(l.price, 10_000_000);
}

#[test]
fn test_create_listing_while_paused_fails() {
    let mut pause = PauseState::new();
    pause.global = true;
    let r = create_listing(
        1, ARTIST, request(10_000_000, TOKEN, COLLECTION, 1), CollectionStandard::Erc721,
        &rules(0), &pause, &RevokedArtists::new(), &registry_with(&[TOKEN]), CONTRACT, 1,
    );
    assert_eq!(r.unwrap_err().code(), 23);
}

#[test]
fn test_pause_function_create_listing_blocks_new_listings() {
    let mut pause = PauseState::new();
    pause.pause_function("create_listing".to_string());
    let r = create_listing(
        1, ARTIST, request(10_000_000, TOKEN, COLLECTION, 1), CollectionStandard::Erc721,
        &rules(0), &pause, &RevokedArtists::new(), &registry_with(&[TOKEN]), CONTRACT, 1,
    );
    assert_eq!(r.unwrap_err(), MarketplaceError::ContractPaused);
}

#[test]
fn test_revoked_artist_cannot_create_listing() {
    let mut revoked = RevokedArtists::new();
    revoked.revoke(ARTIST);
    let r = create_listing(
        1, ARTIST, request(10_000_000, TOKEN, COLLECTION, 1), CollectionStandard::Erc721,
        &rules(0), &PauseState::new(), &revoked, &registry_with(&[TOKEN]), CONTRACT, 1,
    );
    assert_eq!(r.unwrap_err().code(), 15);
}

#[test]
fn test_revoke_and_reinstate_artist_simple() {
    let mut revoked = RevokedArtists::new();
    revoked.revoke(ARTIST);
    assert!(revoked.is_revoked(ARTIST));
    assert!(!revoked.is_revoked(BUYER));
    revoked.reinstate(ARTIST);
    assert_eq!(revoked.require_not_revoked(ARTIST), Ok(()));
    let r = create_listing(
        1, ARTIST, request(10_000_000, TOKEN, COLLECTION, 1), CollectionStandard::Erc721,
        &rules(0), &PauseState::new(), &revoked, &registry_with(&[TOKEN]), CONTRACT, 1,
    );
    assert!(r.is_ok());
}

#[test]
fn test_create_listing_non_whitelisted_token_reverts() {
    let r = create_listing(
        1, ARTIST, request(10_000_000, OTHER_TOKEN, COLLECTION, 1), CollectionStandard::Erc721,
        &rules(0), &PauseState::new(), &RevokedArtists::new(), &registry_with(&[TOKEN]), CONTRACT, 1,
    );
    assert_eq!(r.unwrap_err(), MarketplaceError::TokenNotWhitelisted);
}

#[test]
fn test_create_listing_empty_whitelist_accepts_any_token() {
    let r = create_listing(
        1, ARTIST, request(1_000_000, OTHER_TOKEN, COLLECTION, 1), CollectionStandard::Erc721,
        &rules(0), &PauseState::new(), &RevokedArtists::new(), &TokenRegistry::new(), CONTRACT, 1,
    );
    assert_eq!(r.unwrap().listing_id, 1);
}

#[test]
fn test_create_listing_rejects_collection_as_token() {
    let r = create_listing(
        1, ARTIST, request(10_000_000, COLLECTION, COLLECTION, 1), CollectionStandard::Erc721,
        &rules(0), &PauseState::new(), &RevokedArtists::new(), &TokenRegistry::new(), CONTRACT, 1,
    );
    assert_eq!(r.unwrap_err().code(), 25);
}

#[test]
fn test_listing_snapshots_protocol_fee_at_creation() {
    let l = create_listing(
        1, ARTIST, request(10_000_000, TOKEN, COLLECTION, 1), CollectionStandard::Erc721,
        &rules(0), &PauseState::new(), &RevokedArtists::new(), &registry_with(&[TOKEN]), CONTRACT, 1,
    )
    .unwrap();
    assert_eq!(l.protocol_fee_bps, 0);
}

#[test]
fn test_new_listing_adopts_current_global_fee() {
    let mut req = request(10_000_000, TOKEN, COLLECTION, 1);
    req.recipients = vec![Recipient { address: ARTIST, percentage: 9_500 }];
    let l = create_listing(
        1, ARTIST, req, CollectionStandard::Erc721, &rules(500), &PauseState::new(),
        &RevokedArtists::new(), &registry_with(&[TOKEN]), CONTRACT, 1,
    )
    .unwrap();
    assert_eq!(l.protocol_fee_bps, 500);
}

#[test]
fn test_create_auction_success() {
    let a = open_auction(
        1, ARTIST, TOKEN, COLLECTION, 1, 1_000_000, 3_600, valid_recipients(ARTIST),
        &ProtocolConfig::new(), &PauseState::new(), &RevokedArtists::new(), &registry_with(&[TOKEN]),
        CONTRACT, NOW,
    )
    .unwrap();
    assert_eq!(a.min_increment, DEFAULT_MIN_BID_INCREMENT);
    assert_eq!(a.extension_window, DEFAULT_EXTENSION_WINDOW);
    assert_eq!(a.bid_history_cap, DEFAULT_BID_HISTORY_CAP);
    assert_eq!(a.end_time, NOW + 3_600);
}

#[test]
fn test_create_auction_while_paused_fails() {
    let mut pause = PauseState::new();
    pause.global = true;
    let r = open_auction(
        1, ARTIST, TOKEN, COLLECTION, 1, 1_000_000, 3_600, valid_recipients(ARTIST),
        &ProtocolConfig::new(), &pause, &RevokedArtists::new(), &registry_with(&[TOKEN]), CONTRACT, NOW,
    );
    assert_eq!(r.unwrap_err().code(), 23);
}

#[test]
fn test_revoked_artist_cannot_create_auction() {
    let mut revoked = RevokedArtists::new();
    revoked.revoke(ARTIST);
    let r = open_auction(
        1, ARTIST, TOKEN, COLLECTION, 1, 1_000_000, 3_600, valid_recipients(ARTIST),
        &ProtocolConfig::new(), &PauseState::new(), &revoked, &registry_with(&[TOKEN]), CONTRACT, NOW,
    );
    assert_eq!(r.unwrap_err(), MarketplaceError::ArtistRevoked);
}

#[test]
fn test_create_auction_rejects_collection_as_token() {
    let r = open_auction(
        1, ARTIST, COLLECTION, COLLECTION, 1, 1_000_000, 3_600, valid_recipients(ARTIST),
        &ProtocolConfig::new(), &PauseState::new(), &RevokedArtists::new(), &TokenRegistry::new(),
        CONTRACT, NOW,
    );
    assert_eq!(r.unwrap_err().code(), 25);
}

#[test]
fn test_create_auction_non_whitelisted_token_reverts() {
    let r = open_auction(
        1, ARTIST, OTHER_TOKEN, COLLECTION, 1, 1_000_000, 3_600, valid_recipients(ARTIST),
        &ProtocolConfig::new(), &PauseState::new(), &RevokedArtists::new(), &registry_with(&[TOKEN]),
        CONTRACT, NOW,
    );
    assert_eq!(r.unwrap_err(), MarketplaceError::TokenNotWhitelisted);
}

// ── Purchase ────────────────────────────────────────────────────────────────

fn buy(l: &mut Listing, buyer: AccountId, locks: &mut ListingLocks, reg: &TokenRegistry) -> Result<PurchaseOutcome, MarketplaceError> {
    buy_artwork(l, buyer, NOW, &PauseState::new(), locks, reg, CONTRACT, false, None)
}

#[test]
fn test_buy_artwork_success_nft_goes_to_buyer() {
    let mut l = new_listing(1, ARTIST, 10_000_000);
    let mut locks = ListingLocks::new();
    match buy(&mut l, BUYER, &mut locks, &registry_with(&[TOKEN])).unwrap() {
        PurchaseOutcome::Sold(st) => assert_eq!(st.payouts, vec![10_000_000]),
        PurchaseOutcome::Expired => panic!("listing was not expired"),
    }
    assert_eq!(l.status, ListingStatus::Sold);
    assert_eq!(l.owner, Some(BUYER));
    // The lock is held until the payouts are made.
    assert!(locks.is_locked(1));
    locks.release(1);
    assert!(!locks.is_locked(1));
}

#[test]
fn test_buy_artwork_while_paused_fails() {
    let mut l = new_listing(1, ARTIST, 10_000_000);
    let mut pause = PauseState::new();
    pause.global = true;
    let r = buy_artwork(&mut l, BUYER, NOW, &pause, &mut ListingLocks::new(), &registry_with(&[TOKEN]), CONTRACT, false, None);
    assert_eq!(r.unwrap_err().code(), 23);
    assert_eq!(l.status, ListingStatus::Active);
}

#[test]
fn test_pause_collection_blocks_buy_artwork() {
    let mut l = new_listing(1, ARTIST, 10_000_000);
    let mut pause = PauseState::new();
    pause.pause_collection(COLLECTION);
    let r = buy_artwork(&mut l, BUYER, NOW, &pause, &mut ListingLocks::new(), &registry_with(&[TOKEN]), CONTRACT, false, None);
    assert_eq!(r.unwrap_err(), MarketplaceError::ContractPaused);
}

#[test]
fn test_buy_artwork_reentrant_token_attack_blocked_by_lock() {
    let mut l = new_listing(1, ARTIST, 1_000_000);
    let mut locks = ListingLocks::new();
    assert!(locks.acquire(1));
    // A nested purchase of the same listing while its settlement runs.
    assert_eq!(buy(&mut l, BUYER, &mut locks, &registry_with(&[TOKEN])).unwrap_err().code(), 22);
    assert_eq!(l.status, ListingStatus::Active);
    assert!(locks.is_locked(1));
}

#[test]
fn test_buy_artwork_reentrant_token_different_listing_succeeds() {
    let mut l1 = new_listing(1, ARTIST, 1_000_000);
    let mut l2 = new_listing(2, BUYER2, 1_500_000);
    let mut locks = ListingLocks::new();
    let reg = registry_with(&[TOKEN]);
    assert!(locks.acquire(7));
    assert!(buy(&mut l1, BUYER, &mut locks, &reg).is_ok());
    assert!(buy(&mut l2, BUYER, &mut locks, &reg).is_ok());
    assert_eq!(l1.status, ListingStatus::Sold);
    assert_eq!(l2.status, ListingStatus::Sold);
}

#[test]
fn test_err_token_not_whitelisted_buy() {
    let mut l = new_listing(1, ARTIST, 1_000_000);
    let mut reg = registry_with(&[TOKEN, OTHER_TOKEN]);
    reg.remove(TOKEN);
    assert_eq!(buy(&mut l, BUYER, &mut ListingLocks::new(), &reg).unwrap_err().code(), 25);
    assert_eq!(l.status, ListingStatus::Active);
}

#[test]
fn test_revoked_artist_existing_listing_remains_settleable() {
    let mut l = new_listing(1, ARTIST, 10_000_000);
    let mut revoked = RevokedArtists::new();
    revoked.revoke(ARTIST);
    assert!(buy(&mut l, BUYER, &mut ListingLocks::new(), &registry_with(&[TOKEN])).is_ok());
    assert_eq!(l.owner, Some(BUYER));
}

#[test]
fn test_buy_artwork_expired_closes_listing() {
    let mut req = request(5_000_000, TOKEN, COLLECTION, 1);
    req.expires_at = Some(NOW - 1_000);
    let mut l = create_listing(
        1, ARTIST, req, CollectionStandard::Erc721, &rules(0), &PauseState::new(),
        &RevokedArtists::new(), &registry_with(&[TOKEN]), CONTRACT, 1,
    )
    .unwrap();
    assert!(matches!(buy(&mut l, BUYER, &mut ListingLocks::new(), &registry_with(&[TOKEN])), Ok(PurchaseOutcome::Expired)));
    assert_eq!(l.status, ListingStatus::Cancelled);
}

#[test]
fn purchase_with_royalty_and_fee() {
    let mut req = request(10_000_000, TOKEN, COLLECTION, 1);
    req.recipients = vec![Recipient { address: ARTIST, percentage: 9_500 }];
    let mut l = create_listing(
        1, ARTIST, req, CollectionStandard::Erc721, &rules(500), &PauseState::new(),
        &RevokedArtists::new(), &registry_with(&[TOKEN]), CONTRACT, 1,
    )
    .unwrap();
    let royalty = Some(RoyaltyInfo { receiver: AccountId(77), bps: 1_000 });
    let r = buy_artwork(&mut l, BUYER, NOW, &PauseState::new(), &mut ListingLocks::new(), &registry_with(&[TOKEN]), CONTRACT, true, royalty);
    match r.unwrap() {
        PurchaseOutcome::Sold(st) => {
            assert_eq!(st.royalty_amount, 1_000_000);
            assert_eq!(st.protocol_fee, 450_000);
            assert_eq!(st.payouts, vec![8_550_000]);
        },
        PurchaseOutcome::Expired => panic!("not expired"),
    }
}

// ── Offers ──────────────────────────────────────────────────────────────────

#[test]
fn test_make_offer_non_whitelisted_token_reverts() {
    let l = new_listing(1, ARTIST, 1_000_000);
    let r = make_offer(&l, 1, BUYER, 500_000, OTHER_TOKEN, None, 0, 1, &PauseState::new(), &registry_with(&[TOKEN]), CONTRACT);
    assert_eq!(r.unwrap_err().code(), 25);
}

#[test]
fn test_make_offer_while_paused_fails() {
    let l = new_listing(1, ARTIST, 1_000_000);
    let mut pause = PauseState::new();
    pause.pause_function("make_offer".to_string());
    let r = make_offer(&l, 1, BUYER, 500_000, TOKEN, None, 0, 1, &pause, &registry_with(&[TOKEN]), CONTRACT);
    assert_eq!(r.unwrap_err(), MarketplaceError::ContractPaused);
}

#[test]
fn test_make_offer_whitelisted_token_succeeds() {
    let o = offer(5, BUYER, 500_000);
    assert_eq!(o.status, OfferStatus::Pending);
    assert_eq!((o.offer_id, o.offerer, o.amount), (5, BUYER, 500_000));
}

#[test]
fn test_accept_offer_rejects_competing_offers_and_refunds() {
    let mut l = new_listing(1, ARTIST, 10_000_000);
    let mut offers = vec![offer(1, BUYER, 5_000_000), offer(2, BUYER2, 7_000_000), offer(3, BUYER3, 3_000_000)];
    let mut locks = ListingLocks::new();
    let sale = accept_offer(
        &mut l, &mut offers, 1, ARTIST, NOW, &PauseState::new(), &mut locks, &registry_with(&[TOKEN]),
        CONTRACT, false, None,
    )
    .unwrap();
    assert_eq!(offers[1].status, OfferStatus::Accepted);
    assert_eq!(offers[0].status, OfferStatus::Rejected);
    assert_eq!(offers[2].status, OfferStatus::Rejected);
    assert_eq!(
        sale.refunds,
        vec![Payment { to: BUYER, amount: 5_000_000 }, Payment { to: BUYER3, amount: 3_000_000 }]
    );
    assert_eq!(sale.settlement.payouts, vec![7_000_000]);
    assert_eq!(l.status, ListingStatus::Sold);
    assert_eq!(l.owner, Some(BUYER2));
}

#[test]
fn test_accept_offer_reentrancy_guard() {
    let mut l = new_listing(1, ARTIST, 10_000_000);
    let mut offers = vec![offer(1, BUYER, 5_000_000)];
    let mut locks = ListingLocks::new();
    assert!(locks.acquire(1));
    let r = accept_offer(
        &mut l, &mut offers, 0, ARTIST, NOW, &PauseState::new(), &mut locks, &registry_with(&[TOKEN]),
        CONTRACT, false, None,
    );
    assert_eq!(r.unwrap_err().code(), 22);
    assert_eq!(offers[0].status, OfferStatus::Pending);
}

#[test]
fn test_accept_offer_blocked_when_token_removed() {
    let mut l = new_listing(1, ARTIST, 10_000_000);
    let mut offers = vec![offer(1, BUYER, 5_000_000)];
    let mut reg = registry_with(&[TOKEN, OTHER_TOKEN]);
    reg.remove(TOKEN);
    let r = accept_offer(
        &mut l, &mut offers, 0, ARTIST, NOW, &PauseState::new(), &mut ListingLocks::new(), &reg,
        CONTRACT, false, None,
    );
    assert_eq!(r.unwrap_err(), MarketplaceError::TokenNotWhitelisted);
    assert_eq!(l.status, ListingStatus::Active);
}

#[test]
fn test_accept_offer_uses_snapshotted_fee_not_raised_global() {
    let mut l = new_listing(1, ARTIST, 10_000_000);
    let mut offers = vec![offer(1, BUYER, 5_000_000)];
    let sale = accept_offer(
        &mut l, &mut offers, 0, ARTIST, NOW, &PauseState::new(), &mut ListingLocks::new(),
        &registry_with(&[TOKEN]), CONTRACT, true, None,
    )
    .unwrap();
    assert_eq!(sale.settlement.protocol_fee, 0);
}

#[test]
fn test_cancel_listing_rejects_pending_offers() {
    let mut l = new_listing(1, ARTIST, 10_000_000);
    let mut offers = vec![offer(1, BUYER, 5_000_000), offer(2, BUYER2, 6_000_000)];
    offers[1].status = OfferStatus::Withdrawn;
    let refunds = cancel_listing(&mut l, &mut offers, ARTIST).unwrap();
    assert_eq!(l.status, ListingStatus::Cancelled);
    assert_eq!(offers[0].status, OfferStatus::Rejected);
    assert_eq!(offers[1].status, OfferStatus::Withdrawn);
    assert_eq!(refunds, vec![Payment { to: BUYER, amount: 5_000_000 }]);
}

#[test]
fn test_withdraw_offer_refunds_buyer() {
    let mut o = offer(1, BUYER, 5_000_000);
    let p = close_offer(&mut o, OfferAction::Withdraw, ARTIST, BUYER, NOW).unwrap();
    assert_eq!(p, Payment { to: BUYER, amount: 5_000_000 });
    assert_eq!(o.status, OfferStatus::Withdrawn);
}

#[test]
fn test_reject_offer_refunds_buyer() {
    let mut o = offer(1, BUYER, 5_000_000);
    let p = close_offer(&mut o, OfferAction::Reject, ARTIST, ARTIST, NOW).unwrap();
    assert_eq!(p.amount, 5_000_000);
    assert_eq!(o.status, OfferStatus::Rejected);
    assert!(close_offer(&mut o, OfferAction::Reject, ARTIST, ARTIST, NOW).is_err());
}

// ── Listing updates ─────────────────────────────────────────────────────────

#[test]
fn test_update_listing_success_with_recipients() {
    let mut l = new_listing(1, ARTIST, 10_000_000);
    let r = vec![
        Recipient { address: ARTIST, percentage: 5_000 },
        Recipient { address: BUYER2, percentage: 5_000 },
    ];
    update_listing(&mut l, ARTIST, 15_000_000, TOKEN, r, 0, None, &registry_with(&[TOKEN]), CONTRACT, NOW).unwrap();
    assert_eq!(l.price, 15_000_000);
    assert_eq!(l.recipients.len(), 2);
}

#[test]
fn test_update_listing_with_pending_offer_fails() {
    let mut l = new_listing(1, ARTIST, 10_000_000);
    let r = update_listing(&mut l, ARTIST, 15_000_000, TOKEN, valid_recipients(ARTIST), 1, None, &registry_with(&[TOKEN]), CONTRACT, NOW);
    assert!(r.is_err());
    assert_eq!(l.price, 10_000_000);
}

#[test]
fn test_err_listing_not_active_update_cancelled() {
    let mut l = new_listing(1, ARTIST, 1_000_000);
    l.status = ListingStatus::Cancelled;
    let r = update_listing(&mut l, ARTIST, 2_000_000, TOKEN, valid_recipients(ARTIST), 0, None, &registry_with(&[TOKEN]), CONTRACT, NOW);
    assert_eq!(r.unwrap_err().code(), 4);
}

#[test]
fn test_update_listing_rejects_non_whitelisted_token() {
    let mut l = new_listing(1, ARTIST, 10_000_000);
    let r = update_listing(&mut l, ARTIST, 10_000_000, OTHER_TOKEN, valid_recipients(ARTIST), 0, None, &registry_with(&[TOKEN]), CONTRACT, NOW);
    assert_eq!(r.unwrap_err().code(), 25);
}

#[test]
fn test_update_listing_invalid_split_fails() {
    let mut l = new_listing(1, ARTIST, 10_000_000);
    let r = vec![Recipient { address: ARTIST, percentage: 6_000 }, Recipient { address: BUYER2, percentage: 5_000 }];
    let res = update_listing(&mut l, ARTIST, 10_000_000, TOKEN, r, 0, None, &registry_with(&[TOKEN]), CONTRACT, NOW);
    assert_eq!(res.unwrap_err().code(), 26);
}

#[test]
fn test_update_listing_too_many_recipients_fails() {
    let mut l = new_listing(1, ARTIST, 10_000_000);
    let r: Vec<Recipient> = (10..15u64).map(|a| Recipient { address: AccountId(a), percentage: 1_000 }).collect();
    let e = update_listing(&mut l, ARTIST, 10_000_000, TOKEN, r, 0, None, &registry_with(&[TOKEN]), CONTRACT, NOW);
    assert_eq!(e.unwrap_err().code(), 8);
}

#[test]
fn test_update_listing_empty_recipients_fails() {
    let mut l = new_listing(1, ARTIST, 10_000_000);
    let e = update_listing(&mut l, ARTIST, 10_000_000, TOKEN, Vec::new(), 0, None, &registry_with(&[TOKEN]), CONTRACT, NOW);
    assert_eq!(e.unwrap_err(), MarketplaceError::InvalidSplit);
}

#[test]
fn test_update_listing_below_min_price_panics() {
    let mut l = new_listing(1, ARTIST, 10_000_000);
    let b = Some(PriceBounds { min: 5_000_000, max: 100_000_000 });
    assert_eq!(update_listing_price(&mut l, ARTIST, 1_000, 0, b, NOW).unwrap_err().code(), 39);
}

#[test]
fn test_update_listing_price_within_bounds_succeeds() {
    let mut l = new_listing(1, ARTIST, 10_000_000);
    let b = Some(PriceBounds { min: 1_000, max: 50_000_000 });
    update_listing_price(&mut l, ARTIST, 20_000_000, 0, b, NOW).unwrap();
    assert_eq!(l.price, 20_000_000);
}

#[test]
fn test_update_listings_batch_succeeds() {
    let mut a = new_listing(1, ARTIST, 1_000_000);
    let mut b = new_listing(2, ARTIST, 2_000_000);
    let reg = registry_with(&[TOKEN]);
    let reqs = vec![
        BatchUpdateListingInput { listing_id: 1, new_price: 3_000_000, new_token: TOKEN, new_recipients: valid_recipients(ARTIST) },
        BatchUpdateListingInput { listing_id: 2, new_price: 4_000_000, new_token: TOKEN, new_recipients: valid_recipients(ARTIST) },
    ];
    assert!(reqs[0].apply(&mut a, ARTIST, 0, None, &reg, CONTRACT, NOW).is_ok());
    assert!(reqs[1].apply(&mut b, ARTIST, 0, None, &reg, CONTRACT, NOW).is_ok());
    assert_eq!((a.price, b.price), (3_000_000, 4_000_000));
    assert_eq!(reqs[0].apply(&mut b, ARTIST, 0, None, &reg, CONTRACT, NOW).unwrap_err().code(), 3);
}

// ── Auctions ────────────────────────────────────────────────────────────────

#[test]
fn test_finalize_auction_with_winner() {
    let mut a = open_auction(
        1, ARTIST, TOKEN, COLLECTION, 1, 1_000_000, 3_600, vec![Recipient { address: ARTIST, percentage: 9_500 }],
        &{ let mut c = ProtocolConfig::new(); c.set_protocol_fee(500).unwrap(); c },
        &PauseState::new(), &RevokedArtists::new(), &registry_with(&[TOKEN]), CONTRACT, NOW,
    )
    .unwrap();
    let mut h = BidHistory::new(a.bid_history_cap);
    bid(&mut a, &mut h, BUYER, 2_000_000, NOW + 10, 5, MAX_TOTAL, &PauseState::new()).unwrap();
    assert_eq!(h.len(), 1);
    match finalize_auction(&mut a, NOW + 3_601, &PauseState::new(), &registry_with(&[TOKEN]), CONTRACT, true, None).unwrap() {
        AuctionClose::Sold { winner, settlement } => {
            assert_eq!(winner, BUYER);
            assert_eq!(settlement.protocol_fee, 100_000);
            assert_eq!(settlement.payouts, vec![1_900_000]);
        },
        AuctionClose::Unsold => panic!("auction had a bid"),
    }
    assert_eq!(a.status, AuctionStatus::Finalized);
}

#[test]
fn test_finalize_auction_no_bids() {
    let mut a = open_auction(
        1, ARTIST, TOKEN, COLLECTION, 1, 1_000_000, 3_600, valid_recipients(ARTIST), &ProtocolConfig::new(),
        &PauseState::new(), &RevokedArtists::new(), &registry_with(&[TOKEN]), CONTRACT, NOW,
    )
    .unwrap();
    let r = finalize_auction(&mut a, NOW + 3_601, &PauseState::new(), &registry_with(&[TOKEN]), CONTRACT, false, None);
    assert!(matches!(r, Ok(AuctionClose::Unsold)));
    assert_eq!(a.status, AuctionStatus::Cancelled);
}

#[test]
fn test_finalize_auction_blocked_when_token_removed() {
    let mut a = open_auction(
        1, ARTIST, TOKEN, COLLECTION, 1, 5_000_000, 3_600, valid_recipients(ARTIST), &ProtocolConfig::new(),
        &PauseState::new(), &RevokedArtists::new(), &registry_with(&[TOKEN, OTHER_TOKEN]), CONTRACT, NOW,
    )
    .unwrap();
    let mut h = BidHistory::new(20);
    bid(&mut a, &mut h, BUYER, 10_000_000, NOW + 1, 1, MAX_TOTAL, &PauseState::new()).unwrap();
    let mut reg = registry_with(&[TOKEN, OTHER_TOKEN]);
    reg.remove(TOKEN);
    let r = finalize_auction(&mut a, NOW + 7_200, &PauseState::new(), &reg, CONTRACT, false, None);
    assert_eq!(r.unwrap_err().code(), 25);
    assert_eq!(a.status, AuctionStatus::Active);
}

#[test]
fn test_finalize_auction_no_bid_not_blocked_by_token_removal() {
    let mut a = open_auction(
        1, ARTIST, TOKEN, COLLECTION, 1, 5_000_000, 3_600, valid_recipients(ARTIST), &ProtocolConfig::new(),
        &PauseState::new(), &RevokedArtists::new(), &registry_with(&[TOKEN, OTHER_TOKEN]), CONTRACT, NOW,
    )
    .unwrap();
    let mut reg = registry_with(&[TOKEN, OTHER_TOKEN]);
    reg.remove(TOKEN);
    assert!(matches!(finalize_auction(&mut a, NOW + 7_200, &PauseState::new(), &reg, CONTRACT, false, None), Ok(AuctionClose::Unsold)));
}

#[test]
fn test_auction_payout_matches_direct_sale_payout() {
    let price = 10_000_000_i128;
    let mut l = new_listing(1, ARTIST, price);
    let direct = match buy_artwork(&mut l, BUYER, NOW, &PauseState::new(), &mut ListingLocks::new(), &registry_with(&[TOKEN]), CONTRACT, true, None).unwrap() {
        PurchaseOutcome::Sold(st) => st.payouts,
        PurchaseOutcome::Expired => panic!("not expired"),
    };
    let mut a = open_auction(
        2, ARTIST, TOKEN, COLLECTION, 2, price, 3_600, valid_recipients(ARTIST), &ProtocolConfig::new(),
        &PauseState::new(), &RevokedArtists::new(), &registry_with(&[TOKEN]), CONTRACT, NOW,
    )
    .unwrap();
    let mut h = BidHistory::new(20);
    bid(&mut a, &mut h, BUYER2, price, NOW + 1, 1, MAX_TOTAL, &PauseState::new()).unwrap();
    match finalize_auction(&mut a, NOW + 3_601, &PauseState::new(), &registry_with(&[TOKEN]), CONTRACT, true, None).unwrap() {
        AuctionClose::Sold { settlement, .. } => assert_eq!(settlement.payouts, direct),
        AuctionClose::Unsold => panic!("auction had a bid"),
    }
}

#[test]
fn test_pause_function_place_bid_blocks_bidding() {
    let mut a = open_auction(
        1, ARTIST, TOKEN, COLLECTION, 1, 1_000_000, 3_600, valid_recipients(ARTIST), &ProtocolConfig::new(),
        &PauseState::new(), &RevokedArtists::new(), &registry_with(&[TOKEN]), CONTRACT, NOW,
    )
    .unwrap();
    let mut pause = PauseState::new();
    pause.pause_function("place_bid".to_string());
    let mut h = BidHistory::new(20);
    assert_eq!(bid(&mut a, &mut h, BUYER, 2_000_000, NOW + 1, 1, MAX_TOTAL, &pause).unwrap_err().code(), 23);
    assert_eq!(h.len(), 0);
    assert_eq!(a.highest_bidder, None);
}

#[test]
fn auction_admin_cancel_refunds_highest_bidder() {
    let mut a = open_auction(
        1, ARTIST, TOKEN, COLLECTION, 1, 1_000_000, 3_600, valid_recipients(ARTIST), &ProtocolConfig::new(),
        &PauseState::new(), &RevokedArtists::new(), &registry_with(&[TOKEN]), CONTRACT, NOW,
    )
    .unwrap();
    let mut h = BidHistory::new(20);
    bid(&mut a, &mut h, BUYER, 2_000_000, NOW + 1, 1, MAX_TOTAL, &PauseState::new()).unwrap();
    assert_eq!(a.admin_cancel(), Ok(Some(Payment { to: BUYER, amount: 2_000_000 })));
    assert_eq!(a.status, AuctionStatus::Cancelled);
    assert_eq!(a.admin_cancel().unwrap_err().code(), 45);
}

// ── Revocation clean-up ─────────────────────────────────────────────────────

#[test]
fn revocation_batches_over_a_list_of_listings() {
    let mut listings: Vec<Listing> = (1..=7u64).map(|i| new_listing(i, ARTIST, 1_000_000)).collect();
    listings.push(new_listing(8, BUYER2, 1_000_000));
    assert_eq!(cancel_artist_listings(&mut listings, ARTIST, 0), 7);
    assert_eq!(listings[0].status, ListingStatus::Active);
    assert_eq!(cancel_artist_listings(&mut listings, ARTIST, 3), 4);
    assert_eq!(listings[2].status, ListingStatus::Cancelled);
    assert_eq!(listings[3].status, ListingStatus::Active);
    assert_eq!(cancel_artist_listings(&mut listings, ARTIST, 3), 1);
    assert_eq!(cancel_artist_listings(&mut listings, ARTIST, 3), 0);
    assert!(listings[..7].iter().all(|l| l.status == ListingStatus::Cancelled));
    assert_eq!(listings[7].status, ListingStatus::Active);
    assert_eq!(cancel_artist_listings(&mut listings, ARTIST, 3), 0);
}

/// Lists token `token_id` of `nft` for `artist` in `m`, moving the token
/// into the marketplace's custody as the contract does.
fn list_in_market(m: &mut Market, nft: &mut MockNft, artist: AccountId, price: i128, token_id: u64) -> u64 {
    let mut req = request(price, TOKEN, COLLECTION, token_id);
    req.recipients = valid_recipients(artist);
    let owner = nft.owner_of(token_id);
    let id = m
        .create_listing(
            artist, owner, req, CollectionStandard::Erc721, &rules(0), &PauseState::new(), &RevokedArtists::new(),
            &registry_with(&[TOKEN]), CONTRACT, 1,
        )
        .unwrap();
    nft.transfer_from(CONTRACT, artist, CONTRACT, token_id);
    id
}

fn market_offer(m: &mut Market, listing_id: u64, offerer: AccountId, amount: i128) -> u64 {
    m.make_offer(listing_id, offerer, amount, TOKEN, None, 1, &PauseState::new(), &registry_with(&[TOKEN]), CONTRACT)
        .unwrap()
}

#[test]
fn test_cancel_artist_listings_batched_resumable() {
    let mut nft = MockNft::new();
    let mut m = Market::new();
    let ids: Vec<u64> = (1..=7u64)
        .map(|t| {
            nft.set_owner(t, ARTIST);
            list_in_market(&mut m, &mut nft, ARTIST, 1_000_000, t)
        })
        .collect();
    nft.set_owner(8, BUYER2);
    let other = list_in_market(&mut m, &mut nft, BUYER2, 1_000_000, 8);
    // Pending offer on the first listing: must be refunded during the sweep.
    let offer_amount = 5_000_i128;
    let offer_id = market_offer(&mut m, ids[0], BUYER, offer_amount);
    let mut revoked = RevokedArtists::new();
    revoked.revoke(ARTIST);

    // max = 0 reports the remaining count without processing anything.
    let sweep = m.cancel_artist_listings(ARTIST, 0);
    assert_eq!(sweep.remaining, 7);
    assert!(sweep.refunds.is_empty());
    assert_eq!(m.listing(ids[0]).unwrap().status, ListingStatus::Active);

    // Three batched calls: 7 -> 4 -> 1 -> 0 remaining.
    let first = m.cancel_artist_listings(ARTIST, 3);
    assert_eq!(first.remaining, 4);
    assert_eq!(m.listing(ids[2]).unwrap().status, ListingStatus::Cancelled);
    assert_eq!(m.listing(ids[3]).unwrap().status, ListingStatus::Active, "listings beyond the batch must be untouched");
    assert_eq!(first.returned.len(), 3);
    assert_eq!(m.cancel_artist_listings(ARTIST, 3).remaining, 1);
    assert_eq!(m.cancel_artist_listings(ARTIST, 3).remaining, 0);

    for id in &ids {
        assert_eq!(m.listing(*id).unwrap().status, ListingStatus::Cancelled);
    }
    assert_eq!(m.listing(other).unwrap().status, ListingStatus::Active);
    assert_eq!(m.active_index().len(), 1);

    // Refund-then-cancel semantics preserved.
    assert_eq!(m.offer(offer_id).unwrap().status, OfferStatus::Rejected);
    assert_eq!(first.refunds, vec![Payment { to: BUYER, amount: offer_amount }]);

    // Completed sweep: a further call is a no-op returning 0.
    let again = m.cancel_artist_listings(ARTIST, 3);
    assert_eq!(again.remaining, 0);
    assert!(again.refunds.is_empty() && again.returned.is_empty());
}

#[test]
fn test_cancel_artist_listings_releases_nft_and_refunds_offers() {
    let mut nft = MockNft::new();
    nft.set_owner(1, ARTIST);
    let mut m = Market::new();
    let lid = list_in_market(&mut m, &mut nft, ARTIST, 5_000_000, 1);
    assert_eq!(nft.owner_of(1), CONTRACT);
    let oid = market_offer(&mut m, lid, BUYER, 3_000_000);
    // Revoke the artist, then cancel their listings.
    let mut revoked = RevokedArtists::new();
    revoked.revoke(ARTIST);
    let sweep = m.cancel_artist_listings(ARTIST, u32::MAX);
    assert_eq!(sweep.remaining, 0);
    assert_eq!(m.listing(lid).unwrap().status, ListingStatus::Cancelled);
    assert_eq!(m.offer(oid).unwrap().status, OfferStatus::Rejected);
    // The token leaves custody and goes back to the artist.
    assert!(m.custody().get(COLLECTION, 1).is_none());
    for rec in &sweep.returned {
        nft.transfer_from(CONTRACT, CONTRACT, rec.depositor, rec.token_id);
    }
    assert_eq!(nft.owner_of(1), ARTIST);
    // The buyer gets the offer back.
    assert_eq!(sweep.refunds, vec![Payment { to: BUYER, amount: 3_000_000 }]);
}

// ── Pagination ──────────────────────────────────────────────────────────────

#[test]
fn test_active_listings_pagination_across_page_boundary() {
    let mut idx = PagedIndex::new();
    for id in 1..=120u64 {
        idx.append(id);
    }
    assert_eq!(idx.len(), 120);
    let tail = read_range(&idx, 100, 30);
    assert_eq!(tail.len(), 20);
    assert_eq!(tail[0], 101);
    let cross = read_range(&idx, 95, 10);
    assert_eq!(cross, (96..106u64).collect::<Vec<u64>>());
    assert!(read_range(&idx, 120, 10).is_empty());
    assert!(read_range(&idx, 0, 0).is_empty());
    assert_eq!(read_range(&idx, 0, 9_999).len(), 100);
}

// ── Royalty claims ──────────────────────────────────────────────────────────

#[test]
fn royalty_claims_pay_once() {
    let recipients = vec![
        Recipient { address: ARTIST, percentage: 7_000 },
        Recipient { address: BUYER2, percentage: 2_500 },
    ];
    let royalty = Some(RoyaltyInfo { receiver: AccountId(77), bps: 1_000 });
    let st = settle(10_000_000, ARTIST, &recipients, 500, true, royalty).unwrap();
    let records = settlement_claims(9, true, TOKEN, &recipients, &st, 42, false);
    assert_eq!(records.len(), 3);
    assert_eq!(records[0].recipient, AccountId(77));
    assert_eq!(records[0].amount, 1_000_000);
    assert_eq!(records[1].recipient, ARTIST);
    assert_eq!(records[1].amount, st.payouts[0]);
    assert!(records.iter().all(|r| !r.claimed && r.created_at == 42 && r.claimed_at.is_none()));
    let mut claims = RoyaltyClaims::new();
    for r in &records {
        claims.record(*r);
    }
    let key = ClaimKey { settlement_id: 9, is_listing: true, recipient: BUYER2 };
    assert_eq!(claims.claim(key, 50), Ok(st.payouts[1]));
    assert_eq!(claims.claim(key, 51).unwrap_err().code(), 63);
    let got = claims.get(key).unwrap();
    assert!(got.claimed);
    assert_eq!(got.claimed_at, Some(50));
    let auction_key = ClaimKey { settlement_id: 9, is_listing: false, recipient: BUYER2 };
    assert_eq!(claims.claim(auction_key, 52), Err(MarketplaceError::RoyaltyClaimNotFound));
    let artist_key = ClaimKey { settlement_id: 9, is_listing: true, recipient: ARTIST };
    assert!(!claims.get(artist_key).unwrap().claimed);
}

#[test]
fn royalty_claims_written_paid() {
    let recipients = valid_recipients(ARTIST);
    let st = settle(1_000_000, ARTIST, &recipients, 0, false, None).unwrap();
    let records = settlement_claims(1, false, TOKEN, &recipients, &st, 7, true);
    assert_eq!(records.len(), 1);
    assert!(records[0].claimed);
    assert_eq!(records[0].claimed_at, Some(7));
}

// ── Migration ───────────────────────────────────────────────────────────────

fn empty_store() -> LegacyStore {
    LegacyStore { listings: Vec::new(), auctions: Vec::new(), offers: Vec::new(), active: Vec::new() }
}

/// The store as the earlier schema left it: 3 listings (1 sold), 3 offers
/// (1 terminal), 1 auction, and the single-entry active index.
fn legacy_v1_fixture() -> LegacyStore {
    let listings: Vec<Listing> = (1u64..=3)
        .map(|lid| {
            let mut l = new_listing(lid, ARTIST, 1_000_000 * lid as i128);
            if lid == 2 {
                l.status = ListingStatus::Sold;
            }
            l
        })
        .collect();
    let offers: Vec<Offer> = [(1u64, 1u64, OfferStatus::Pending), (2, 1, OfferStatus::Rejected), (3, 3, OfferStatus::Pending)]
        .iter()
        .map(|&(offer_id, listing_id, status)| Offer {
            offer_id,
            listing_id,
            offerer: BUYER,
            amount: 1_000,
            token: TOKEN,
            status,
            created_at: 0,
            expires_at: None,
        })
        .collect();
    let auction = open_auction(
        1, ARTIST, TOKEN, COLLECTION, 9, 1_000_000, 3_600, valid_recipients(ARTIST), &ProtocolConfig::new(),
        &PauseState::new(), &RevokedArtists::new(), &registry_with(&[TOKEN]), CONTRACT, 0,
    )
    .unwrap();
    LegacyStore { listings, auctions: vec![auction], offers, active: vec![1, 3] }
}

fn ids_of(index: Option<&PagedIndex>) -> Vec<u64> {
    match index {
        Some(idx) => read_range(idx, 0, 100),
        None => Vec::new(),
    }
}

/// After migration every read surface returns exactly what the legacy
/// fixture held, and the pending counters are rebuilt.
fn assert_v1_fixture_migrated(m: &StoreMigration, offers: &[Offer]) {
    assert!(m.complete());
    assert_eq!(ids_of(m.artist_listings(ARTIST)), vec![1, 2, 3]);
    assert_eq!(read_range(m.active_index(), 0, 10), vec![1, 3]);
    assert_eq!(m.active_index().len(), 2);
    assert_eq!(ids_of(m.listing_offers(1)), vec![1, 2]);
    assert_eq!(ids_of(m.listing_offers(3)), vec![3]);
    assert_eq!(ids_of(m.offerer_offers(BUYER)), vec![1, 2, 3]);
    assert_eq!(ids_of(m.artist_auctions(ARTIST)), vec![1]);
    // Pending counters rebuilt from offer statuses (offer 2 is terminal).
    assert_eq!(m.pending_offer_count(1), 1);
    assert_eq!(m.pending_offer_count(3), 1);
    // The offers of a listing resolve through its paged index.
    let by_listing: Vec<Offer> = ids_of(m.listing_offers(1)).iter().map(|id| offers[(*id - 1) as usize]).collect();
    assert_eq!(by_listing.len(), 2);
    assert_eq!(by_listing[0].offer_id, 1);
    assert_eq!(by_listing[1].status, OfferStatus::Rejected);
    // Active-listing positions are rebuilt for removal.
    assert!(m.active_index().contains(1) && m.active_index().contains(3));
}

#[test]
fn test_migrate_fresh_deploy_records_marker_only() {
    let mut m = StoreMigration::new(empty_store());
    assert_eq!(m.run(), Ok(()));
    assert!(m.complete());
    assert_eq!(m.active_index().len(), 0);
    assert!(m.run().is_err());
}

#[test]
fn test_double_migrate_panics() {
    let mut m = StoreMigration::new(legacy_v1_fixture());
    m.run().unwrap();
    assert_eq!(m.run().unwrap_err().code(), 37);
}

#[test]
fn test_migrate_transforms_legacy_v1_data_and_is_idempotent() {
    let fixture = legacy_v1_fixture();
    let offers = fixture.offers.clone();
    let mut m = StoreMigration::new(fixture);
    m.run().unwrap();
    assert_v1_fixture_migrated(&m, &offers);
    // Idempotency: the second call is refused with AlreadyMigrated (#37).
    let second = m.run();
    assert!(second.is_err(), "second migrate must revert AlreadyMigrated");
    assert_eq!(second.unwrap_err().code(), 37);
}

#[test]
fn test_migrate_step_bounded_and_resumable() {
    let fixture = legacy_v1_fixture();
    let offers = fixture.offers.clone();
    let mut m = StoreMigration::new(fixture);
    // 8 migration units: 3 listings + 1 auction + 3 offers + 1 active index.
    let mut remaining = m.step(1).unwrap();
    assert_eq!(remaining, 7);
    let mut steps = 1u32;
    while remaining > 0 {
        let next = m.step(2).unwrap();
        assert!(next < remaining, "remaining must strictly decrease");
        remaining = next;
        steps += 1;
        assert!(steps < 20, "migration must terminate");
    }
    assert_v1_fixture_migrated(&m, &offers);
    // Completed: both entry points are refused.
    assert_eq!(m.step(1), Err(MarketplaceError::AlreadyMigrated));
    assert!(m.run().is_err());
}

#[test]
fn migration_fills_indexes_unit_by_unit() {
    let mut m = StoreMigration::new(legacy_v1_fixture());
    assert_eq!(m.step(2), Ok(6));
    // Two listings filed; nothing else yet.
    assert_eq!(ids_of(m.artist_listings(ARTIST)), vec![1, 2]);
    assert!(ids_of(m.artist_auctions(ARTIST)).is_empty());
    assert_eq!(m.step(3), Ok(3));
    assert_eq!(ids_of(m.artist_listings(ARTIST)), vec![1, 2, 3]);
    assert_eq!(ids_of(m.artist_auctions(ARTIST)), vec![1]);
    assert_eq!(ids_of(m.offerer_offers(BUYER)), vec![1]);
    assert_eq!(m.pending_offer_count(1), 1);
    // The active index comes last.
    assert_eq!(m.step(2), Ok(1));
    assert_eq!(m.active_index().len(), 0);
    assert_eq!(m.step(0), Ok(1));
    assert_eq!(m.step(5), Ok(0));
    assert_eq!(m.active_index().len(), 2);
}

#[test]
fn migration_skips_repeated_legacy_ids() {
    let mut store = empty_store();
    store.active = vec![5, 6, 5, 7];
    let mut m = StoreMigration::new(store);
    m.run().unwrap();
    assert_eq!(read_range(m.active_index(), 0, 10), vec![5, 6, 7]);
}

// ── Secondary sales ─────────────────────────────────────────────────────────

#[test]
fn royalty_secondary_sale() {
    let price = 10_000_000_i128;
    let royalty = Some(RoyaltyInfo { receiver: ARTIST, bps: 1_000 });
    // First sale by the creator: no royalty to themselves.
    let first = settle(price, ARTIST, &valid_recipients(ARTIST), 0, false, royalty).unwrap();
    assert_eq!(first.royalty_amount, 0);
    assert_eq!(first.payouts, vec![price]);
    // The buyer resells: the creator receives the royalty.
    let second = settle(price, BUYER, &valid_recipients(BUYER), 0, false, royalty).unwrap();
    let expected_royalty = price * 1_000 / 10_000;
    assert_eq!(second.royalty_receiver, Some(ARTIST));
    assert_eq!(second.royalty_amount, expected_royalty);
    assert_eq!(second.payouts, vec![price - expected_royalty]);
}

// ── Reservations ────────────────────────────────────────────────────────────

#[test]
fn reservation_set_by_artist_gates_purchase() {
    let mut l = new_listing(1, ARTIST, 1_000_000);
    assert_eq!(
        set_listing_reservation(&mut l, BUYER, Some(BUYER2), None, Some(NOW + 100), NOW).unwrap_err(),
        MarketplaceError::Unauthorized
    );
    assert_eq!(
        set_listing_reservation(&mut l, ARTIST, Some(BUYER2), Some(NOW + 10), Some(NOW + 5), NOW).unwrap_err().code(),
        66
    );
    set_listing_reservation(&mut l, ARTIST, Some(BUYER2), None, Some(NOW + 100), NOW).unwrap();
    assert_eq!(l.reserved_for, Some(BUYER2));
    let mut locks = ListingLocks::new();
    let reg = registry_with(&[TOKEN]);
    assert_eq!(buy(&mut l, BUYER, &mut locks, &reg).unwrap_err().code(), 65);
    assert!(buy(&mut l, BUYER2, &mut locks, &reg).is_ok());
}
