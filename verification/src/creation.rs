//! Opening a listing or an auction: the checks that come before any token is
//! taken into custody, and the record that is created.
use vstd::prelude::*;

use crate::auction::{create_auction_verdict, Auction};
use crate::batch::{acceptable_terms, lemma_request_duration_bounds, lemma_request_terms, request_ok, validate_request, within_duration_bounds, ListingRules};
use crate::errors::MarketplaceError;
use crate::guards::RevokedArtists;
use crate::pause::{paused_for, PauseState};
use crate::purchase::listing_wf;
use crate::types::{AccountId, BatchCreateListingInput, CollectionStandard, Listing, ListingStatus, Recipient};
use crate::whitelist::{payment_token_verdict, TokenRegistry};

verus! {

/// The gates every new listing or auction passes first: the circuit
/// breakers for the entry point `function` on `collection`, the artist's
/// standing, and the payment token.
pub open spec fn gate_verdict(
    pause: PauseState,
    function: Seq<char>,
    revoked: Set<u64>,
    registry: Seq<crate::whitelist::TokenEntry>,
    contract: AccountId,
    artist: AccountId,
    token: AccountId,
    collection: AccountId,
) -> Result<(), MarketplaceError> {
    if paused_for(pause, Some(collection), function) {
        Err(MarketplaceError::ContractPaused)
    } else if revoked.contains(artist.0) {
        Err(MarketplaceError::ArtistRevoked)
    } else {
        payment_token_verdict(registry, token, collection, contract)
    }
}

fn check_gates(
    pause: &PauseState,
    function: &String,
    revoked: &RevokedArtists,
    registry: &TokenRegistry,
    contract: AccountId,
    artist: AccountId,
    token: AccountId,
    collection: AccountId,
) -> (r: Result<(), MarketplaceError>)
    ensures
        r == gate_verdict(*pause, function@, revoked.view(), registry.view(), contract, artist, token, collection),
{
    pause.require_not_paused(Some(collection), function)?;
    revoked.require_not_revoked(artist)?;
    registry.check_payment_token(token, collection, contract)
}

/// The listing a request creates: active, unowned, unreserved, with the
/// current protocol fee snapshotted.
pub open spec fn listing_from(
    listing_id: u64,
    artist: AccountId,
    req: BatchCreateListingInput,
    protocol_fee_bps: u32,
    ledger: u32,
) -> Listing {
    Listing {
        listing_id,
        artist,
        price: req.price,
        currency: req.currency,
        token: req.token,
        collection: req.collection,
        token_id: req.token_id,
        quantity: req.quantity,
        recipients: req.recipients,
        status: ListingStatus::Active,
        owner: None,
        created_at: ledger,
        protocol_fee_bps,
        expires_at: req.expires_at,
        reserved_for: None,
        reservation_start: None,
        reservation_end: None,
    }
}

/// What opening listing `listing_id` for `artist` from `req` gives: the
/// first failing gate, else the first failing request check, else the new
/// listing.
pub open spec fn create_listing_result(
    listing_id: u64,
    artist: AccountId,
    req: BatchCreateListingInput,
    standard: CollectionStandard,
    rules: ListingRules,
    pause: PauseState,
    revoked: Set<u64>,
    registry: Seq<crate::whitelist::TokenEntry>,
    contract: AccountId,
    ledger: u32,
) -> Result<Listing, MarketplaceError> {
    let g = gate_verdict(pause, "create_listing"@, revoked, registry, contract, artist, req.token, req.collection);
    if g is Err {
        Err(g->Err_0)
    } else if request_ok(req, standard, rules) is Err {
        Err(request_ok(req, standard, rules)->Err_0)
    } else {
        Ok(listing_from(listing_id, artist, req, rules.protocol_fee_bps, ledger))
    }
}

/// Opens listing `listing_id` for `artist` from `req`, for a collection of
/// `standard`. The gates come first, then the request checks; on success the
/// listing snapshots the protocol fee of `rules`. The token is then to be
/// taken into custody.
pub fn create_listing(
    listing_id: u64,
    artist: AccountId,
    req: BatchCreateListingInput,
    standard: CollectionStandard,
    rules: &ListingRules,
    pause: &PauseState,
    revoked: &RevokedArtists,
    registry: &TokenRegistry,
    contract: AccountId,
    ledger: u32,
) -> (r: Result<Listing, MarketplaceError>)
    ensures
        ({
            let g = gate_verdict(
                *pause,
                "create_listing"@,
                revoked.view(),
                registry.view(),
                contract,
                artist,
                req.token,
                req.collection,
            );
            &&& g is Err ==> r == Err::<Listing, MarketplaceError>(g->Err_0)
            &&& g is Ok ==> (r is Err <==> request_ok(req, standard, *rules) is Err)
            &&& g is Ok && r is Err ==> r == Err::<Listing, MarketplaceError>(
                request_ok(req, standard, *rules)->Err_0,
            )
            &&& r matches Ok(l) ==> l == listing_from(listing_id, artist, req, rules.protocol_fee_bps, ledger)
                && listing_wf(l)
        }),
        r matches Ok(l) ==> records_request(l, listing_id, artist, req, rules.protocol_fee_bps, ledger),
        r is Ok ==> within_duration_bounds(req.expires_at, rules.now, rules.min_duration, rules.max_duration),
        r is Ok ==> acceptable_terms(req, standard, *rules),
        r == create_listing_result(
            listing_id,
            artist,
            req,
            standard,
            *rules,
            *pause,
            revoked.view(),
            registry.view(),
            contract,
            ledger,
        ),
{
    let function = "create_listing".to_owned();
    proof {
        reveal_strlit("create_listing");
    }
    check_gates(pause, &function, revoked, registry, contract, artist, req.token, req.collection)?;
    validate_request(&req, standard, rules)?;
    Ok(
        Listing {
            listing_id,
            artist,
            price: req.price,
            currency: req.currency,
            token: req.token,
            collection: req.collection,
            token_id: req.token_id,
            quantity: req.quantity,
            recipients: req.recipients,
            status: ListingStatus::Active,
            owner: None,
            created_at: ledger,
            protocol_fee_bps: rules.protocol_fee_bps,
            expires_at: req.expires_at,
            reserved_for: None,
            reservation_start: None,
            reservation_end: None,
        },
    )
}

/// Opens auction `auction_id` for `creator` at `now`: the gates for
/// `create_auction` come first, then the checks of [`Auction::create`].
pub fn open_auction(
    auction_id: u64,
    creator: AccountId,
    token: AccountId,
    collection: AccountId,
    token_id: u64,
    reserve_price: i128,
    duration: u64,
    recipients: Vec<Recipient>,
    config: &crate::config::ProtocolConfig,
    pause: &PauseState,
    revoked: &RevokedArtists,
    registry: &TokenRegistry,
    contract: AccountId,
    now: u64,
) -> (r: Result<Auction, MarketplaceError>)
    requires
        now + duration <= u64::MAX,
    ensures
        ({
            let g = gate_verdict(
                *pause,
                "create_auction"@,
                revoked.view(),
                registry.view(),
                contract,
                creator,
                token,
                collection,
            );
            let v = create_auction_verdict(
                reserve_price,
                duration,
                config.min_bid_increment,
                recipients@,
                config.protocol_fee_bps,
            );
            &&& g is Err ==> r == Err::<Auction, MarketplaceError>(g->Err_0)
            &&& g is Ok ==> (r is Err <==> v is Err)
            &&& g is Ok && r is Err ==> r == Err::<Auction, MarketplaceError>(v->Err_0)
            &&& r matches Ok(a) ==> a == (Auction {
                auction_id,
                creator,
                token,
                collection,
                token_id,
                reserve_price,
                highest_bid: 0,
                highest_bidder: None,
                end_time: (now + duration) as u64,
                status: crate::types::AuctionStatus::Active,
                recipients,
                min_increment: config.min_bid_increment,
                extension_window: config.extension_window,
                extension_trigger: config.extension_trigger,
                protocol_fee_bps: config.protocol_fee_bps,
                bid_history_cap: config.bid_history_cap,
                max_extensions: config.max_extensions,
                extension_count: 0,
                original_end_time: (now + duration) as u64,
            }) && crate::closing::auction_wf(a)
        }),
{
    let function = "create_auction".to_owned();
    proof {
        reveal_strlit("create_auction");
    }
    check_gates(pause, &function, revoked, registry, contract, creator, token, collection)?;
    Auction::create(
        auction_id,
        creator,
        token,
        collection,
        token_id,
        reserve_price,
        duration,
        config.min_bid_increment,
        recipients,
        config.extension_window,
        config.extension_trigger,
        config.protocol_fee_bps,
        config.bid_history_cap,
        config.max_extensions,
        now,
    )
}


/// Listing `l` is listing `listing_id` of `artist` exactly as `req` asked
/// for it: the price, payment token, token and its collection, the number of
/// editions, the payees and the expiry of the request, opened active and
/// unowned at ledger `ledger` with the fee `protocol_fee_bps`.
pub open spec fn records_request(
    l: Listing,
    listing_id: u64,
    artist: AccountId,
    req: BatchCreateListingInput,
    protocol_fee_bps: u32,
    ledger: u32,
) -> bool {
    &&& l.listing_id == listing_id
    &&& l.artist == artist
    &&& l.price == req.price
    &&& l.currency == req.currency
    &&& l.token == req.token
    &&& l.collection == req.collection
    &&& l.token_id == req.token_id
    &&& l.quantity == req.quantity
    &&& l.recipients == req.recipients
    &&& l.expires_at == req.expires_at
    &&& l.status == ListingStatus::Active
    &&& l.owner is None
    &&& l.created_at == ledger
    &&& l.protocol_fee_bps == protocol_fee_bps
    &&& l.reserved_for is None
}

/// A listing that opens carries exactly what was requested (the number of
/// editions included) and has acceptable terms, and a request whose expiry
/// lies outside the configured duration bounds never opens a listing.
pub proof fn lemma_opened_listing_is_the_request(
    listing_id: u64,
    artist: AccountId,
    req: BatchCreateListingInput,
    standard: CollectionStandard,
    rules: ListingRules,
    pause: PauseState,
    revoked: Set<u64>,
    registry: Seq<crate::whitelist::TokenEntry>,
    contract: AccountId,
    ledger: u32,
)
    ensures
        ({
            let r = create_listing_result(
                listing_id,
                artist,
                req,
                standard,
                rules,
                pause,
                revoked,
                registry,
                contract,
                ledger,
            );
            &&& r matches Ok(l) ==> records_request(l, listing_id, artist, req, rules.protocol_fee_bps, ledger)
            &&& !within_duration_bounds(req.expires_at, rules.now, rules.min_duration, rules.max_duration) ==> r is Err
            &&& r is Ok ==> acceptable_terms(req, standard, rules)
        }),
{
    lemma_request_duration_bounds(req, standard, rules);
    lemma_request_terms(req, standard, rules);
}

} // verus!
