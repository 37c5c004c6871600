use vstd::prelude::*;

use crate::errors::{error_code, BatchItemError, MarketplaceError};
use crate::listing::{
    duration_verdict, price_verdict, quantity_verdict, validate_listing_duration, validate_price,
    validate_quantity, PriceBounds,
};
use crate::recipients::{recipients_verdict, validate_recipients};
use crate::types::{BatchCreateListingInput, CollectionStandard, Recipient};

verus! {

/// Most listings one batch may create.
pub const MAX_BATCH_LISTINGS: usize = 20;

/// Most listings one batch may cancel.
pub const MAX_BATCH_CANCEL: usize = 10;

/// The configuration every new listing is checked against.
#[derive(Clone, Copy, Debug, PartialEq, Eq, Structural)]
pub struct ListingRules {
    pub price_bounds: Option<PriceBounds>,
    pub protocol_fee_bps: u32,
    pub min_duration: Option<u64>,
    pub max_duration: Option<u64>,
    pub now: u64,
}

/// Why a batch was refused.
#[derive(Clone, Copy, Debug, PartialEq, Eq, Structural)]
pub enum BatchFailure {
    /// More items than a batch may hold.
    TooLarge,
    /// The first item that failed, and why.
    Item(BatchItemError),
}

impl BatchFailure {
    /// The error the batch entry point reports.
    pub fn error(&self) -> (e: MarketplaceError)
        ensures
            e == (match *self {
                BatchFailure::TooLarge => MarketplaceError::BatchTooLarge,
                BatchFailure::Item(_) => MarketplaceError::BatchItemInvalid,
            }),
    {
        match self {
            BatchFailure::TooLarge => MarketplaceError::BatchTooLarge,
            BatchFailure::Item(_) => MarketplaceError::BatchItemInvalid,
        }
    }
}

/// The outcome of checking one request: price, then quantity, then payees,
/// then expiry.
pub open spec fn request_verdict(
    price: i128,
    standard: CollectionStandard,
    quantity: u64,
    recipients: Seq<Recipient>,
    expires_at: Option<u64>,
    rules: ListingRules,
) -> Result<(), MarketplaceError> {
    if price_verdict(price, rules.price_bounds) is Err {
        price_verdict(price, rules.price_bounds)
    } else if quantity_verdict(standard, quantity) is Err {
        quantity_verdict(standard, quantity)
    } else if recipients_verdict(recipients, rules.protocol_fee_bps) is Err {
        recipients_verdict(recipients, rules.protocol_fee_bps)
    } else {
        duration_verdict(expires_at, rules.now, rules.min_duration, rules.max_duration)
    }
}

/// The outcome of checking `req` for a collection of `standard`.
pub open spec fn request_ok(req: BatchCreateListingInput, standard: CollectionStandard, rules: ListingRules) -> Result<
    (),
    MarketplaceError,
> {
    request_verdict(req.price, standard, req.quantity, req.recipients@, req.expires_at, rules)
}

/// Checks one listing request, for a collection of `standard`, against the
/// rules.
pub fn validate_request(req: &BatchCreateListingInput, standard: CollectionStandard, rules: &ListingRules) -> (r:
    Result<(), MarketplaceError>)
    ensures
        r == request_ok(*req, standard, *rules),
        r is Ok ==> within_duration_bounds(req.expires_at, rules.now, rules.min_duration, rules.max_duration),
        r is Ok ==> acceptable_terms(*req, standard, *rules),
{
    validate_price(req.price, rules.price_bounds)?;
    validate_quantity(standard, req.quantity)?;
    validate_recipients(&req.recipients, rules.protocol_fee_bps)?;
    validate_listing_duration(req.expires_at, rules.now, rules.min_duration, rules.max_duration)
}

/// Checks a batch of listing requests before any of them is created, so that
/// the batch is created whole or not at all: it may hold at most
/// [`MAX_BATCH_LISTINGS`] items, and the first invalid item is reported with
/// its index and the code of its error. `standards[i]` is the standard the
/// collection of `requests[i]` reports.
pub fn validate_listing_batch(
    requests: &Vec<BatchCreateListingInput>,
    standards: &Vec<CollectionStandard>,
    rules: &ListingRules,
) -> (r: Result<(), BatchFailure>)
    requires
        standards@.len() == requests@.len(),
    ensures
        r == Err::<(), BatchFailure>(BatchFailure::TooLarge) <==> requests@.len() > MAX_BATCH_LISTINGS,
        r is Ok <==> (requests@.len() <= MAX_BATCH_LISTINGS && forall|i: int|
            0 <= i < requests@.len() ==> #[trigger] request_ok(requests@[i], standards@[i], *rules) is Ok),
        r matches Err(BatchFailure::Item(e)) ==> {
            &&& requests@.len() <= MAX_BATCH_LISTINGS
            &&& e.item_index < requests@.len()
            &&& request_ok(requests@[e.item_index as int], standards@[e.item_index as int], *rules) is Err
            &&& e.error_code == error_code(
                request_ok(requests@[e.item_index as int], standards@[e.item_index as int], *rules)->Err_0,
            )
            &&& forall|j: int| 0 <= j < e.item_index ==> #[trigger] request_ok(requests@[j], standards@[j], *rules) is Ok
        },
{
    if requests.len() > MAX_BATCH_LISTINGS {
        return Err(BatchFailure::TooLarge);
    }
    let mut i: usize = 0;
    while i < requests.len()
        invariant
            i <= requests@.len() <= MAX_BATCH_LISTINGS,
            standards@.len() == requests@.len(),
            forall|j: int| 0 <= j < i ==> #[trigger] request_ok(requests@[j], standards@[j], *rules) is Ok,
        decreases requests@.len() - i,
    {
        match validate_request(&requests[i], standards[i], rules) {
            Err(e) => {
                return Err(BatchFailure::Item(BatchItemError::new(i as u32, e)));
            },
            Ok(()) => {},
        }
        i = i + 1;
    }
    Ok(())
}

/// Checks the size of a batch cancellation: at most [`MAX_BATCH_CANCEL`] ids.
pub fn check_cancel_batch_size(len: usize) -> (r: Result<(), MarketplaceError>)
    ensures
        r is Ok <==> len <= MAX_BATCH_CANCEL,
        r is Err ==> r == Err::<(), MarketplaceError>(MarketplaceError::BatchTooLarge),
{
    if len > MAX_BATCH_CANCEL {
        Err(MarketplaceError::BatchTooLarge)
    } else {
        Ok(())
    }
}


/// The expiry `expires_at`, counted from `now` (an expiry at or before `now`
/// runs for zero seconds), lies within the configured minimum and maximum
/// durations, both ends included; a listing without expiry always does.
pub open spec fn within_duration_bounds(
    expires_at: Option<u64>,
    now: u64,
    min_duration: Option<u64>,
    max_duration: Option<u64>,
) -> bool {
    match expires_at {
        None => true,
        Some(e) => {
            let d: int = if e > now {
                e - now
            } else {
                0
            };
            &&& (min_duration matches Some(lo) ==> d >= lo)
            &&& (max_duration matches Some(hi) ==> d <= hi)
        },
    }
}

/// A request whose expiry lies outside the configured duration bounds is
/// refused, with `InvalidListingDuration` once its price, quantity and
/// payees pass; a request that passes runs for a duration within the bounds.
pub proof fn lemma_request_duration_bounds(req: BatchCreateListingInput, standard: CollectionStandard, rules: ListingRules)
    ensures
        !within_duration_bounds(req.expires_at, rules.now, rules.min_duration, rules.max_duration) ==> request_ok(
            req,
            standard,
            rules,
        ) is Err,
        !within_duration_bounds(req.expires_at, rules.now, rules.min_duration, rules.max_duration) && price_verdict(
            req.price,
            rules.price_bounds,
        ) is Ok && quantity_verdict(standard, req.quantity) is Ok && recipients_verdict(
            req.recipients@,
            rules.protocol_fee_bps,
        ) is Ok ==> request_ok(req, standard, rules) == Err::<(), MarketplaceError>(
            MarketplaceError::InvalidListingDuration,
        ),
        request_ok(req, standard, rules) is Ok ==> within_duration_bounds(
            req.expires_at,
            rules.now,
            rules.min_duration,
            rules.max_duration,
        ),
{
}


/// The price and the number of editions of `req` are acceptable: a positive
/// price within the configured bounds (both ends included), at least one
/// edition, and exactly one for a collection of single tokens.
pub open spec fn acceptable_terms(req: BatchCreateListingInput, standard: CollectionStandard, rules: ListingRules) -> bool {
    &&& req.price > 0
    &&& (rules.price_bounds matches Some(b) ==> b.min <= req.price <= b.max)
    &&& req.quantity >= 1
    &&& (standard == CollectionStandard::Erc721 || standard == CollectionStandard::LazyMint721) ==> req.quantity
        == 1
}

/// A request passes exactly when its terms are acceptable, its payees pass
/// the split checks and its expiry lies within the duration bounds; and the
/// number of editions never refuses a request for a multi-token collection
/// that asks for at least one.
pub proof fn lemma_request_terms(req: BatchCreateListingInput, standard: CollectionStandard, rules: ListingRules)
    ensures
        request_ok(req, standard, rules) is Ok <==> acceptable_terms(req, standard, rules) && recipients_verdict(
            req.recipients@,
            rules.protocol_fee_bps,
        ) is Ok && within_duration_bounds(req.expires_at, rules.now, rules.min_duration, rules.max_duration),
        (standard == CollectionStandard::Erc1155 || standard == CollectionStandard::LazyMint1155) && req.quantity
            >= 1 ==> quantity_verdict(standard, req.quantity) is Ok,
{
}

} // verus!
