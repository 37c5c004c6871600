use soroban_marketplace::auction::Payment;
use soroban_marketplace::batch::ListingRules;
use soroban_marketplace::closing::AuctionClose;
use soroban_marketplace::config::ProtocolConfig;
use soroban_marketplace::custody::EscrowPurpose;
use soroban_marketplace::errors::MarketplaceError;
use soroban_marketplace::guards::{ListingLocks, RevokedArtists};
use soroban_marketplace::market::Market;
use soroban_marketplace::offers::OfferAction;
use soroban_marketplace::pause::PauseState;
use soroban_marketplace::purchase::PurchaseOutcome;
use soroban_marketplace::types::{
    AccountId, AuctionStatus, BatchCreateListingInput, CollectionStandard, ListingStatus, OfferStatus,
    Recipient,
};
use soroban_marketplace::whitelist::TokenRegistry;

const ARTIST: AccountId = AccountId(1);
const BUYER: AccountId = AccountId(2);
const BIDDER2: AccountId = AccountId(3);
const TOKEN: AccountId = AccountId(50);
const COLLECTION: AccountId = AccountId(60);
const CONTRACT: AccountId = AccountId(99);
const NOW: u64 = 1_000_000;

fn request(price: i128, token_id: u64, expires_at: Option<u64>) -> BatchCreateListingInput {
    BatchCreateListingInput {
        price,
        currency: "XLM".to_string(),
        token: TOKEN,
        collection: COLLECTION,
        token_id,
        quantity: 1,
        recipients: vec![Recipient { address: ARTIST, percentage: 10_000 }],
        expires_at,
    }
}

fn rules() -> ListingRules {
    ListingRules { price_bounds: None, protocol_fee_bps: 0, min_duration: None, max_duration: None, now: NOW }
}

fn open(m: &mut Market, price: i128, token_id: u64, expires_at: Option<u64>) -> Result<u64, MarketplaceError> {
    m.create_listing(
        ARTIST,
        ARTIST,
        request(price, token_id, expires_at),
        CollectionStandard::Erc721,
        &rules(),
        &PauseState::new(),
        &RevokedArtists::new(),
        &TokenRegistry::new(),
        CONTRACT,
        1,
    )
}

fn active_ids(m: &Market) -> Vec<u64> {
    let idx = m.active_index();
    let mut out = Vec::new();
    for i in 0..idx.len() {
        out.push(idx.get(i).unwrap());
    }
    out.sort();
    out
}

fn offer(m: &mut Market, listing_id: u64, who: AccountId, amount: i128) -> Result<u64, MarketplaceError> {
    m.make_offer(listing_id, who, amount, TOKEN, None, 1, &PauseState::new(), &TokenRegistry::new(), CONTRACT)
}

fn pending_escrow(m: &Market, n: u64) -> i128 {
    let mut total = 0;
    for id in 1..=n {
        let o = m.offer(id).unwrap();
        if o.status == OfferStatus::Pending {
            total += o.amount;
        }
    }
    total
}

#[test]
fn market_index_tracks_active_listings_across_create_buy_cancel_expire() {
    let mut m = Market::new();
    assert_eq!(open(&mut m, 100, 1, None), Ok(1));
    assert_eq!(open(&mut m, 200, 2, None), Ok(2));
    assert_eq!(open(&mut m, 300, 3, Some(NOW + 10)), Ok(3));
    assert_eq!(open(&mut m, 400, 4, None), Ok(4));
    assert_eq!(active_ids(&m), vec![1, 2, 3, 4]);

    let sale = m
        .buy(2, BUYER, NOW, &PauseState::new(), &mut ListingLocks::new(), &TokenRegistry::new(), CONTRACT, false, None)
        .unwrap();
    assert!(matches!(sale.outcome, PurchaseOutcome::Sold(_)));
    assert_eq!(m.listing(2).unwrap().status, ListingStatus::Sold);
    assert_eq!(active_ids(&m), vec![1, 3, 4]);

    assert_eq!(m.cancel_listing(4, ARTIST), Ok(vec![]));
    assert_eq!(m.listing(4).unwrap().status, ListingStatus::Cancelled);
    assert_eq!(active_ids(&m), vec![1, 3]);

    // Not yet expired: refused, nothing changes.
    assert_eq!(m.expire_listing(3, NOW + 10), Err(MarketplaceError::ListingNotExpired));
    assert_eq!(active_ids(&m), vec![1, 3]);
    assert_eq!(m.expire_listing(3, NOW + 11), Ok(vec![]));
    assert_eq!(active_ids(&m), vec![1]);

    // A listing that is gone from the index cannot be bought again.
    let r = m.buy(2, BUYER, NOW, &PauseState::new(), &mut ListingLocks::new(), &TokenRegistry::new(), CONTRACT, false, None);
    assert!(r.is_err());
    assert_eq!(active_ids(&m), vec![1]);
}

#[test]
fn market_unknown_ids_are_refused() {
    let mut m = Market::new();
    let r = m.buy(1, BUYER, NOW, &PauseState::new(), &mut ListingLocks::new(), &TokenRegistry::new(), CONTRACT, false, None);
    assert_eq!(r.err(), Some(MarketplaceError::ListingNotFound));
    assert_eq!(m.cancel_listing(0, ARTIST), Err(MarketplaceError::ListingNotFound));
    assert_eq!(m.expire_listing(7, NOW), Err(MarketplaceError::ListingNotFound));
    assert_eq!(offer(&mut m, 1, BUYER, 10), Err(MarketplaceError::ListingNotFound));
    assert_eq!(m.close_offer(1, OfferAction::Withdraw, BUYER, NOW), Err(MarketplaceError::OfferNotFound));
    let r = m.place_bid(1, BUYER, 10, NOW, 1, 86_400, &PauseState::new());
    assert_eq!(r, Err(MarketplaceError::AuctionNotFound));
    assert_eq!(m.cancel_auction(1, ARTIST), Err(MarketplaceError::AuctionNotFound));
    assert_eq!(m.admin_cancel_auction(1), Err(MarketplaceError::AuctionNotFound));
    assert!(m.listing(1).is_none());
    assert!(m.offer(1).is_none());
    assert!(m.auction(1).is_none());
}

#[test]
fn market_offers_escrow_moves_with_each_operation() {
    let mut m = Market::new();
    open(&mut m, 1_000, 1, None).unwrap();
    open(&mut m, 1_000, 2, None).unwrap();
    assert_eq!(offer(&mut m, 1, BUYER, 300), Ok(1));
    assert_eq!(offer(&mut m, 1, BIDDER2, 400), Ok(2));
    assert_eq!(offer(&mut m, 2, BUYER, 50), Ok(3));
    assert_eq!(offer(&mut m, 1, ARTIST, 10), Err(MarketplaceError::CannotOfferOwnListing));
    assert_eq!(pending_escrow(&m, 3), 750);

    // Withdrawing refunds exactly the offer.
    let p = m.close_offer(3, OfferAction::Withdraw, BUYER, NOW).unwrap();
    assert_eq!(p, Payment { to: BUYER, amount: 50 });
    assert_eq!(m.offer(3).unwrap().status, OfferStatus::Withdrawn);
    assert_eq!(pending_escrow(&m, 3), 700);
    // Twice is refused and changes nothing.
    assert_eq!(m.close_offer(3, OfferAction::Withdraw, BUYER, NOW), Err(MarketplaceError::InvalidOfferState));
    assert_eq!(pending_escrow(&m, 3), 700);

    // Accepting offer 2 settles 400 and refunds offer 1.
    let sale = m
        .accept_offer(2, ARTIST, NOW, &PauseState::new(), &mut ListingLocks::new(), &TokenRegistry::new(), CONTRACT, false, None)
        .unwrap();
    assert_eq!(sale.settlement.payouts, vec![400]);
    assert_eq!(sale.refunds, vec![Payment { to: BUYER, amount: 300 }]);
    assert_eq!(m.offer(2).unwrap().status, OfferStatus::Accepted);
    assert_eq!(m.offer(1).unwrap().status, OfferStatus::Rejected);
    assert_eq!(m.listing(1).unwrap().status, ListingStatus::Sold);
    assert_eq!(m.listing(1).unwrap().owner, Some(BIDDER2));
    assert_eq!(active_ids(&m), vec![2]);
    assert_eq!(pending_escrow(&m, 3), 0);
}

#[test]
fn market_cancel_refunds_pending_offers_of_that_listing_only() {
    let mut m = Market::new();
    open(&mut m, 1_000, 1, None).unwrap();
    open(&mut m, 1_000, 2, None).unwrap();
    offer(&mut m, 1, BUYER, 300).unwrap();
    offer(&mut m, 2, BIDDER2, 200).unwrap();
    assert_eq!(m.cancel_listing(1, BUYER), Err(MarketplaceError::Unauthorized));
    assert_eq!(m.cancel_listing(1, ARTIST), Ok(vec![Payment { to: BUYER, amount: 300 }]));
    assert_eq!(m.offer(1).unwrap().status, OfferStatus::Rejected);
    assert_eq!(m.offer(2).unwrap().status, OfferStatus::Pending);
    assert_eq!(pending_escrow(&m, 2), 200);
    assert_eq!(active_ids(&m), vec![2]);
    // Offers on a cancelled listing are refused.
    assert_eq!(offer(&mut m, 1, BUYER, 10), Err(MarketplaceError::ListingNotActive));
}

#[test]
fn market_auction_escrow_is_the_highest_bid() {
    let mut m = Market::new();
    let config = ProtocolConfig::new();
    let id = m
        .create_auction(
            ARTIST, ARTIST, TOKEN, COLLECTION, 100, 1_000_000, 3_600,
            vec![Recipient { address: ARTIST, percentage: 10_000 }],
            &config, &PauseState::new(), &RevokedArtists::new(), &TokenRegistry::new(), CONTRACT, NOW,
        )
        .unwrap();
    assert_eq!(id, 1);
    assert_eq!(m.auction(1).unwrap().status, AuctionStatus::Active);
    assert_eq!(m.bid_history(1).unwrap().len(), 0);

    let out = m.place_bid(1, BUYER, 1_000_000, NOW + 1, 1, 86_400, &PauseState::new()).unwrap();
    assert_eq!(out.refund, None);
    let out = m.place_bid(1, BIDDER2, 2_000_000, NOW + 2, 2, 86_400, &PauseState::new()).unwrap();
    assert_eq!(out.refund, Some(Payment { to: BUYER, amount: 1_000_000 }));
    assert_eq!(m.auction(1).unwrap().highest_bid, 2_000_000);
    assert_eq!(m.bid_history(1).unwrap().len(), 2);
    // Too low: refused, the history is unchanged.
    assert_eq!(
        m.place_bid(1, BUYER, 2_000_001, NOW + 3, 3, 86_400, &PauseState::new()),
        Err(MarketplaceError::BidTooLow)
    );
    assert_eq!(m.bid_history(1).unwrap().len(), 2);
    // With a bid the creator can no longer cancel.
    assert_eq!(m.cancel_auction(1, ARTIST), Err(MarketplaceError::AuctionHasBids));

    assert_eq!(
        m.finalize_auction(1, NOW + 100, &PauseState::new(), &TokenRegistry::new(), CONTRACT, false, None).err(),
        Some(MarketplaceError::AuctionNotEnded)
    );
    match m.finalize_auction(1, NOW + 3_600, &PauseState::new(), &TokenRegistry::new(), CONTRACT, false, None) {
        Ok(AuctionClose::Sold { winner, settlement }) => {
            assert_eq!(winner, BIDDER2);
            assert_eq!(settlement.payouts, vec![2_000_000]);
        },
        other => panic!("unexpected close: {:?}", other),
    }
    assert_eq!(m.auction(1).unwrap().status, AuctionStatus::Finalized);
}

#[test]
fn market_auction_cancellations() {
    let mut m = Market::new();
    let config = ProtocolConfig::new();
    for token_id in 100..102u64 {
        m.create_auction(
            ARTIST, ARTIST, TOKEN, COLLECTION, token_id, 1_000_000, 3_600,
            vec![Recipient { address: ARTIST, percentage: 10_000 }],
            &config, &PauseState::new(), &RevokedArtists::new(), &TokenRegistry::new(), CONTRACT, NOW,
        )
        .unwrap();
    }
    assert_eq!(m.cancel_auction(1, BUYER), Err(MarketplaceError::Unauthorized));
    assert_eq!(m.cancel_auction(1, ARTIST), Ok(()));
    assert_eq!(m.auction(1).unwrap().status, AuctionStatus::Cancelled);
    m.place_bid(2, BUYER, 1_500_000, NOW + 1, 1, 86_400, &PauseState::new()).unwrap();
    assert_eq!(m.admin_cancel_auction(2), Ok(Some(Payment { to: BUYER, amount: 1_500_000 })));
    assert_eq!(m.admin_cancel_auction(2), Err(MarketplaceError::InvalidAuctionState));
}

#[test]
fn market_custody_holds_each_active_token_once() {
    let mut m = Market::new();
    assert_eq!(open(&mut m, 100, 1, None), Ok(1));
    let rec = m.custody().get(COLLECTION, 1).unwrap();
    assert_eq!(rec.depositor, ARTIST);
    assert_eq!(rec.purpose, EscrowPurpose::Listing(1));

    // The marketplace now owns the token: listing it again is refused with
    // NotTokenOwner, and even with a stale owner report it is not taken twice.
    let r = m.create_listing(
        ARTIST, CONTRACT, request(100, 1, None), CollectionStandard::Erc721, &rules(), &PauseState::new(),
        &RevokedArtists::new(), &TokenRegistry::new(), CONTRACT, 1,
    );
    assert_eq!(r.unwrap_err().code(), 49);
    assert_eq!(open(&mut m, 100, 1, None).unwrap_err().code(), 50);
    let r = m.create_auction(
        ARTIST, CONTRACT, TOKEN, COLLECTION, 1, 1_000_000, 3_600,
        vec![Recipient { address: ARTIST, percentage: 10_000 }],
        &ProtocolConfig::new(), &PauseState::new(), &RevokedArtists::new(), &TokenRegistry::new(), CONTRACT, NOW,
    );
    assert_eq!(r, Err(MarketplaceError::NotTokenOwner));
    assert!(m.listing(2).is_none());
    assert!(m.auction(1).is_none());

    // A sale releases the token; it can then be listed again.
    let mut locks = ListingLocks::new();
    m.buy(1, BUYER, NOW, &PauseState::new(), &mut locks, &TokenRegistry::new(), CONTRACT, false, None).unwrap();
    assert!(locks.is_locked(1));
    locks.release(1);
    assert!(m.custody().get(COLLECTION, 1).is_none());
    assert_eq!(
        m.create_listing(
            BUYER, BUYER, request(100, 1, None), CollectionStandard::Erc721, &rules(), &PauseState::new(),
            &RevokedArtists::new(), &TokenRegistry::new(), CONTRACT, 1,
        ),
        Ok(2)
    );
    assert_eq!(m.custody().get(COLLECTION, 1).unwrap().purpose, EscrowPurpose::Listing(2));

    // An auction's token is held until it closes.
    let config = ProtocolConfig::new();
    let id = m
        .create_auction(
            ARTIST, ARTIST, TOKEN, COLLECTION, 9, 1_000_000, 3_600,
            vec![Recipient { address: ARTIST, percentage: 10_000 }],
            &config, &PauseState::new(), &RevokedArtists::new(), &TokenRegistry::new(), CONTRACT, NOW,
        )
        .unwrap();
    assert_eq!(m.custody().get(COLLECTION, 9).unwrap().purpose, EscrowPurpose::Auction(id));
    m.finalize_auction(id, NOW + 3_600, &PauseState::new(), &TokenRegistry::new(), CONTRACT, false, None).unwrap();
    assert_eq!(m.auction(id).unwrap().status, AuctionStatus::Cancelled);
    assert!(m.custody().get(COLLECTION, 9).is_none());
}
