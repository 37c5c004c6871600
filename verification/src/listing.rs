use vstd::prelude::*;

use crate::errors::MarketplaceError;
use crate::types::{AccountId, CollectionStandard, Listing, ListingStatus, Recipient};

verus! {

/// The highest protocol fee the admin may configure: 10 %, in basis points.
pub const MAX_PROTOCOL_FEE_BPS: u32 = 1_000;

/// Inclusive bounds on listing prices configured by the admin.
#[derive(Clone, Copy, Debug, PartialEq, Eq, Structural)]
pub struct PriceBounds {
    pub min: i128,
    pub max: i128,
}

/// The outcome of validating a listing price.
pub open spec fn price_verdict(price: i128, bounds: Option<PriceBounds>) -> Result<(), MarketplaceError> {
    if price <= 0 {
        Err(MarketplaceError::InvalidPrice)
    } else if bounds matches Some(b) && (price < b.min || price > b.max) {
        Err(MarketplaceError::PriceOutOfBounds)
    } else {
        Ok(())
    }
}

/// Checks a listing price: positive, and within the configured bounds (both
/// ends included) when bounds are set.
pub fn validate_price(price: i128, bounds: Option<PriceBounds>) -> (r: Result<(), MarketplaceError>)
    ensures
        r == price_verdict(price, bounds),
{
    if price <= 0 {
        return Err(MarketplaceError::InvalidPrice);
    }
    match bounds {
        Some(b) => {
            if price < b.min || price > b.max {
                return Err(MarketplaceError::PriceOutOfBounds);
            }
        },
        None => {},
    }
    Ok(())
}

/// Whether a standard holds a single token per id.
pub open spec fn single_token(standard: CollectionStandard) -> bool {
    standard == CollectionStandard::Erc721 || standard == CollectionStandard::LazyMint721
}

/// The outcome of listing `quantity` editions from a collection of `standard`.
pub open spec fn quantity_verdict(standard: CollectionStandard, quantity: u64) -> Result<
    (),
    MarketplaceError,
> {
    if quantity == 0 || (single_token(standard) && quantity != 1) {
        Err(MarketplaceError::CollectionIncompatible)
    } else {
        Ok(())
    }
}

/// Checks the quantity of a listing against the collection's standard: never
/// zero, and exactly 1 for single-token collections.
pub fn validate_quantity(standard: CollectionStandard, quantity: u64) -> (r: Result<
    (),
    MarketplaceError,
>)
    ensures
        r == quantity_verdict(standard, quantity),
{
    let single = match standard {
        CollectionStandard::Erc721 => true,
        CollectionStandard::LazyMint721 => true,
        CollectionStandard::Erc1155 => false,
        CollectionStandard::LazyMint1155 => false,
    };
    if quantity == 0 || (single && quantity != 1) {
        return Err(MarketplaceError::CollectionIncompatible);
    }
    Ok(())
}

/// How long a listing expiring at `expires_at` runs from `now`; an expiry at
/// or before `now` counts as zero.
pub open spec fn listing_duration(expires_at: u64, now: u64) -> int {
    if expires_at > now {
        expires_at - now
    } else {
        0
    }
}

/// The outcome of checking a listing's expiry against the configured bounds.
pub open spec fn duration_verdict(
    expires_at: Option<u64>,
    now: u64,
    min_duration: Option<u64>,
    max_duration: Option<u64>,
) -> Result<(), MarketplaceError> {
    match expires_at {
        None => Ok(()),
        Some(e) => if (min_duration matches Some(lo) && listing_duration(e, now) < lo) || (
        max_duration matches Some(hi) && listing_duration(e, now) > hi) {
            Err(MarketplaceError::InvalidListingDuration)
        } else {
            Ok(())
        },
    }
}

/// Checks a listing's expiry against the configured minimum and maximum
/// durations (both ends included). A listing without expiry always passes.
pub fn validate_listing_duration(
    expires_at: Option<u64>,
    now: u64,
    min_duration: Option<u64>,
    max_duration: Option<u64>,
) -> (r: Result<(), MarketplaceError>)
    ensures
        r == duration_verdict(expires_at, now, min_duration, max_duration),
{
    match expires_at {
        None => Ok(()),
        Some(e) => {
            let d: u64 = if e > now {
                e - now
            } else {
                0
            };
            let too_short = match min_duration {
                Some(lo) => d < lo,
                None => false,
            };
            let too_long = match max_duration {
                Some(hi) => d > hi,
                None => false,
            };
            if too_short || too_long {
                Err(MarketplaceError::InvalidListingDuration)
            } else {
                Ok(())
            }
        },
    }
}

/// Checks a new maximum listing duration: zero is refused.
pub fn validate_max_listing_duration(max_duration: u64) -> (r: Result<(), MarketplaceError>)
    ensures
        r is Ok <==> max_duration > 0,
        r is Err ==> r == Err::<(), MarketplaceError>(MarketplaceError::InvalidListingDuration),
{
    if max_duration == 0 {
        Err(MarketplaceError::InvalidListingDuration)
    } else {
        Ok(())
    }
}

/// Checks a new protocol fee: at most [`MAX_PROTOCOL_FEE_BPS`].
pub fn validate_protocol_fee(fee_bps: u32) -> (r: Result<(), MarketplaceError>)
    ensures
        r is Ok <==> fee_bps <= MAX_PROTOCOL_FEE_BPS,
        r is Err ==> r == Err::<(), MarketplaceError>(MarketplaceError::InvalidPrice),
{
    if fee_bps > MAX_PROTOCOL_FEE_BPS {
        Err(MarketplaceError::InvalidPrice)
    } else {
        Ok(())
    }
}

/// A listing with expiry `expires_at` has expired at `now`: its deadline has
/// passed. At exactly `expires_at` it is still live.
pub open spec fn listing_expired(expires_at: Option<u64>, now: u64) -> bool {
    expires_at matches Some(e) && now > e
}

/// Whether the listing has expired at `now`.
pub fn is_listing_expired(expires_at: Option<u64>, now: u64) -> (b: bool)
    ensures
        b == listing_expired(expires_at, now),
{
    match expires_at {
        Some(e) => now > e,
        None => false,
    }
}

/// The outcome of closing a listing for having expired.
pub open spec fn expire_verdict(status: ListingStatus, expires_at: Option<u64>, now: u64) -> Result<
    (),
    MarketplaceError,
> {
    if status != ListingStatus::Active {
        Err(MarketplaceError::ListingNotActive)
    } else if !listing_expired(expires_at, now) {
        Err(MarketplaceError::ListingNotExpired)
    } else {
        Ok(())
    }
}

/// Checks that an active listing may be closed as expired: it must have an
/// expiry and that expiry must have passed.
pub fn check_expire_listing(listing: &Listing, now: u64) -> (r: Result<(), MarketplaceError>)
    ensures
        r == expire_verdict(listing.status, listing.expires_at, now),
{
    if listing.status != ListingStatus::Active {
        return Err(MarketplaceError::ListingNotActive);
    }
    if !is_listing_expired(listing.expires_at, now) {
        return Err(MarketplaceError::ListingNotExpired);
    }
    Ok(())
}

/// A reservation window from `start` (inclusive, `None`: already open) to
/// `end` (exclusive, `None`: no end) is open at `now`.
pub open spec fn window_open(start: Option<u64>, end: Option<u64>, now: u64) -> bool {
    &&& (start matches Some(s) ==> now >= s)
    &&& (end matches Some(e) ==> now < e)
}

/// The outcome of setting a reservation window at `now`.
pub open spec fn reservation_window_verdict(start: Option<u64>, end: Option<u64>, now: u64) -> Result<
    (),
    MarketplaceError,
> {
    match end {
        None => Ok(()),
        Some(e) => if (start matches Some(s) && e <= s) || e < now {
            Err(MarketplaceError::InvalidReservationWindow)
        } else {
            Ok(())
        },
    }
}

/// Checks a reservation window: its end must lie after its start and must
/// not be in the past.
pub fn validate_reservation_window(start: Option<u64>, end: Option<u64>, now: u64) -> (r: Result<
    (),
    MarketplaceError,
>)
    ensures
        r == reservation_window_verdict(start, end, now),
{
    match end {
        None => Ok(()),
        Some(e) => {
            let before_start = match start {
                Some(s) => e <= s,
                None => false,
            };
            if before_start || e < now {
                Err(MarketplaceError::InvalidReservationWindow)
            } else {
                Ok(())
            }
        },
    }
}

/// What a purchase attempt on a listing does.
#[derive(Clone, Copy, Debug, PartialEq, Eq, Structural)]
pub enum PurchaseDecision {
    /// Settle the sale.
    Settle,
    /// The listing has expired: close it, return the token to the seller, and
    /// report that nothing was bought.
    CloseExpired,
}

/// `buyer` is one of the payees.
pub open spec fn is_payee(recipients: Seq<Recipient>, buyer: AccountId) -> bool {
    exists|i: int| 0 <= i < recipients.len() && #[trigger] recipients[i].address == buyer
}

/// The outcome of `buyer` trying to buy a listing at `now`.
pub open spec fn purchase_verdict(
    status: ListingStatus,
    artist: AccountId,
    recipients: Seq<Recipient>,
    buyer: AccountId,
    expires_at: Option<u64>,
    reserved_for: Option<AccountId>,
    reservation_start: Option<u64>,
    reservation_end: Option<u64>,
    now: u64,
) -> Result<PurchaseDecision, MarketplaceError> {
    if status == ListingStatus::Sold {
        Err(MarketplaceError::ListingSold)
    } else if status == ListingStatus::Cancelled {
        Err(MarketplaceError::ListingCancelled)
    } else if buyer == artist || is_payee(recipients, buyer) {
        Err(MarketplaceError::SelfPurchaseNotAllowed)
    } else if listing_expired(expires_at, now) {
        Ok(PurchaseDecision::CloseExpired)
    } else if reserved_for matches Some(r) && window_open(reservation_start, reservation_end, now)
        && r != buyer {
        Err(MarketplaceError::ReservationWindowActive)
    } else {
        Ok(PurchaseDecision::Settle)
    }
}

/// The outcome of `buyer` trying to buy `l` at `now`.
pub open spec fn purchase_of(l: Listing, buyer: AccountId, now: u64) -> Result<PurchaseDecision, MarketplaceError> {
    purchase_verdict(
        l.status,
        l.artist,
        l.recipients@,
        buyer,
        l.expires_at,
        l.reserved_for,
        l.reservation_start,
        l.reservation_end,
        now,
    )
}

/// Decides a purchase attempt: a sold or cancelled listing refuses; the
/// artist and the payees may not buy; an expired listing is closed instead
/// of sold; during an open reservation window only the reserved buyer may
/// buy.
pub fn decide_purchase(listing: &Listing, buyer: AccountId, now: u64) -> (r: Result<
    PurchaseDecision,
    MarketplaceError,
>)
    ensures
        r == purchase_of(*listing, buyer, now),
{
    if listing.status == ListingStatus::Sold {
        return Err(MarketplaceError::ListingSold);
    }
    if listing.status == ListingStatus::Cancelled {
        return Err(MarketplaceError::ListingCancelled);
    }
    if buyer == listing.artist {
        return Err(MarketplaceError::SelfPurchaseNotAllowed);
    }
    let recipients = &listing.recipients;
    let mut i: usize = 0;
    while i < recipients.len()
        invariant
            i <= recipients@.len(),
            recipients == &listing.recipients,
            listing.status != ListingStatus::Sold,
            listing.status != ListingStatus::Cancelled,
            buyer != listing.artist,
            forall|k: int| 0 <= k < i ==> #[trigger] recipients@[k].address != buyer,
        decreases recipients@.len() - i,
    {
        if recipients[i].address == buyer {
            assert(is_payee(recipients@, buyer)) by {
                assert(recipients@[i as int].address == buyer);
            }
            return Err(MarketplaceError::SelfPurchaseNotAllowed);
        }
        i = i + 1;
    }
    assert(!is_payee(recipients@, buyer));
    if is_listing_expired(listing.expires_at, now) {
        return Ok(PurchaseDecision::CloseExpired);
    }
    match listing.reserved_for {
        Some(r) => {
            let started = match listing.reservation_start {
                Some(s) => now >= s,
                None => true,
            };
            let not_ended = match listing.reservation_end {
                Some(e) => now < e,
                None => true,
            };
            if started && not_ended && r != buyer {
                return Err(MarketplaceError::ReservationWindowActive);
            }
        },
        None => {},
    }
    Ok(PurchaseDecision::Settle)
}

/// Only an active listing can be bought, and never by its artist or one of
/// its payees; during an open reservation window only by the reserved buyer.
pub proof fn lemma_purchase_requires_active_third_party(l: Listing, buyer: AccountId, now: u64)
    requires
        purchase_of(l, buyer, now) == Ok::<PurchaseDecision, MarketplaceError>(PurchaseDecision::Settle),
    ensures
        l.status == ListingStatus::Active,
        buyer != l.artist,
        !is_payee(l.recipients@, buyer),
        !listing_expired(l.expires_at, now),
        l.reserved_for matches Some(r) ==> (window_open(l.reservation_start, l.reservation_end, now)
            ==> r == buyer),
{
}

/// A listing is either still purchasable or closable as expired, never both.
pub proof fn lemma_expiry_is_exclusive(status: ListingStatus, expires_at: Option<u64>, now: u64)
    requires
        status == ListingStatus::Active,
    ensures
        expire_verdict(status, expires_at, now) is Ok <==> listing_expired(expires_at, now),
{
}

} // verus!
