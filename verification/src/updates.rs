//! Changing the terms of an active listing: its price, payment token and
//! payees, alone or as one item of a batch.
use vstd::prelude::*;

use crate::errors::MarketplaceError;
use crate::listing::{listing_expired, price_verdict, validate_price, PriceBounds};
use crate::purchase::listing_wf;
use crate::recipients::{recipients_verdict, validate_recipients};
use crate::types::{AccountId, Listing, ListingStatus, Recipient};
use crate::whitelist::{payment_token_verdict, TokenRegistry};

verus! {

/// One item of a batch update: new terms for one listing.
#[derive(Clone, Debug)]
pub struct BatchUpdateListingInput {
    pub listing_id: u64,
    pub new_price: i128,
    pub new_token: AccountId,
    pub new_recipients: Vec<Recipient>,
}

/// Whether the terms of listing `l` may be changed by `caller` at `now`
/// while `pending_offers` offers are pending on it: only its artist may, only
/// while it is active and unexpired, and only when no offer awaits an answer.
pub open spec fn editable_verdict(l: Listing, caller: AccountId, pending_offers: u32, now: u64) -> Result<
    (),
    MarketplaceError,
> {
    if caller != l.artist {
        Err(MarketplaceError::Unauthorized)
    } else if l.status != ListingStatus::Active {
        Err(MarketplaceError::ListingNotActive)
    } else if listing_expired(l.expires_at, now) {
        Err(MarketplaceError::ListingExpired)
    } else if pending_offers > 0 {
        Err(MarketplaceError::InvalidOfferState)
    } else {
        Ok(())
    }
}

/// The outcome of replacing the terms of `l`: the edit must be allowed, then
/// the price must pass the bounds, the token the registry, and the payees the
/// split checks against the fee the listing snapshotted at creation.
pub open spec fn update_verdict(
    l: Listing,
    caller: AccountId,
    new_price: i128,
    new_token: AccountId,
    new_recipients: Seq<Recipient>,
    pending_offers: u32,
    bounds: Option<PriceBounds>,
    registry: Seq<crate::whitelist::TokenEntry>,
    contract: AccountId,
    now: u64,
) -> Result<(), MarketplaceError> {
    if editable_verdict(l, caller, pending_offers, now) is Err {
        editable_verdict(l, caller, pending_offers, now)
    } else if price_verdict(new_price, bounds) is Err {
        price_verdict(new_price, bounds)
    } else if payment_token_verdict(registry, new_token, l.collection, contract) is Err {
        payment_token_verdict(registry, new_token, l.collection, contract)
    } else {
        recipients_verdict(new_recipients, l.protocol_fee_bps)
    }
}

fn check_editable(listing: &Listing, caller: AccountId, pending_offers: u32, now: u64) -> (r: Result<
    (),
    MarketplaceError,
>)
    ensures
        r == editable_verdict(*listing, caller, pending_offers, now),
        expired_edit(*listing, caller, now) ==> r == Err::<(), MarketplaceError>(MarketplaceError::ListingExpired),
        r is Ok <==> may_edit(*listing, caller, pending_offers, now),
{
    if caller != listing.artist {
        return Err(MarketplaceError::Unauthorized);
    }
    if listing.status != ListingStatus::Active {
        return Err(MarketplaceError::ListingNotActive);
    }
    if crate::listing::is_listing_expired(listing.expires_at, now) {
        return Err(MarketplaceError::ListingExpired);
    }
    if pending_offers > 0 {
        return Err(MarketplaceError::InvalidOfferState);
    }
    Ok(())
}

/// Replaces the price, payment token and payees of `listing`, or says why
/// not; a refused update leaves the listing as it was.
pub fn update_listing(
    listing: &mut Listing,
    caller: AccountId,
    new_price: i128,
    new_token: AccountId,
    new_recipients: Vec<Recipient>,
    pending_offers: u32,
    bounds: Option<PriceBounds>,
    registry: &TokenRegistry,
    contract: AccountId,
    now: u64,
) -> (r: Result<(), MarketplaceError>)
    ensures
        r == update_verdict(
            *old(listing),
            caller,
            new_price,
            new_token,
            new_recipients@,
            pending_offers,
            bounds,
            registry.view(),
            contract,
            now,
        ),
        r is Ok ==> *final(listing) == (Listing {
            price: new_price,
            token: new_token,
            recipients: new_recipients,
            ..*old(listing)
        }),
        r is Ok ==> listing_wf(*final(listing)),
        r is Err ==> *final(listing) == *old(listing),
        expired_edit(*old(listing), caller, now) ==> r == Err::<(), MarketplaceError>(
            MarketplaceError::ListingExpired,
        ),
{
    check_editable(listing, caller, pending_offers, now)?;
    validate_price(new_price, bounds)?;
    registry.check_payment_token(new_token, listing.collection, contract)?;
    validate_recipients(&new_recipients, listing.protocol_fee_bps)?;
    listing.price = new_price;
    listing.token = new_token;
    listing.recipients = new_recipients;
    Ok(())
}

/// Changes only the price of `listing`, or says why not; a refused change
/// leaves the listing as it was.
pub fn update_listing_price(
    listing: &mut Listing,
    caller: AccountId,
    new_price: i128,
    pending_offers: u32,
    bounds: Option<PriceBounds>,
    now: u64,
) -> (r: Result<(), MarketplaceError>)
    ensures
        r == (if editable_verdict(*old(listing), caller, pending_offers, now) is Err {
            editable_verdict(*old(listing), caller, pending_offers, now)
        } else {
            price_verdict(new_price, bounds)
        }),
        r is Ok ==> *final(listing) == (Listing { price: new_price, ..*old(listing) }),
        listing_wf(*old(listing)) && r is Ok ==> listing_wf(*final(listing)),
        r is Err ==> *final(listing) == *old(listing),
        expired_edit(*old(listing), caller, now) ==> r == Err::<(), MarketplaceError>(
            MarketplaceError::ListingExpired,
        ),
{
    check_editable(listing, caller, pending_offers, now)?;
    validate_price(new_price, bounds)?;
    listing.price = new_price;
    Ok(())
}

/// The artist (`caller`) reserves `listing` for `reserved_for` during the
/// window from `start` (inclusive, immediately when absent) to `end`
/// (exclusive); `None` lifts the reservation. Only the artist of an active
/// listing may, and the window must pass [`reservation_window_verdict`]. A
/// refused change leaves the listing as it was.
pub fn set_listing_reservation(
    listing: &mut Listing,
    caller: AccountId,
    reserved_for: Option<AccountId>,
    start: Option<u64>,
    end: Option<u64>,
    now: u64,
) -> (r: Result<(), MarketplaceError>)
    ensures
        r == (if caller != old(listing).artist {
            Err(MarketplaceError::Unauthorized)
        } else if old(listing).status != ListingStatus::Active {
            Err(MarketplaceError::ListingNotActive)
        } else {
            crate::listing::reservation_window_verdict(start, end, now)
        }),
        r is Ok ==> *final(listing) == (Listing {
            reserved_for,
            reservation_start: start,
            reservation_end: end,
            ..*old(listing)
        }),
        r is Err ==> *final(listing) == *old(listing),
{
    if caller != listing.artist {
        return Err(MarketplaceError::Unauthorized);
    }
    if listing.status != ListingStatus::Active {
        return Err(MarketplaceError::ListingNotActive);
    }
    crate::listing::validate_reservation_window(start, end, now)?;
    listing.reserved_for = reserved_for;
    listing.reservation_start = start;
    listing.reservation_end = end;
    Ok(())
}

impl BatchUpdateListingInput {
    /// Applies this item to `listing`, which must be the listing it names
    /// (`ListingNotFound` otherwise); then as [`update_listing`].
    pub fn apply(
        &self,
        listing: &mut Listing,
        caller: AccountId,
        pending_offers: u32,
        bounds: Option<PriceBounds>,
        registry: &TokenRegistry,
        contract: AccountId,
        now: u64,
    ) -> (r: Result<(), MarketplaceError>)
        ensures
            old(listing).listing_id != self.listing_id ==> r == Err::<(), MarketplaceError>(
                MarketplaceError::ListingNotFound,
            ),
            old(listing).listing_id == self.listing_id ==> r == update_verdict(
                *old(listing),
                caller,
                self.new_price,
                self.new_token,
                self.new_recipients@,
                pending_offers,
                bounds,
                registry.view(),
                contract,
                now,
            ),
            r is Ok ==> final(listing).price == self.new_price && final(listing).token
                == self.new_token && final(listing).recipients@ == self.new_recipients@
                && final(listing).listing_id == old(listing).listing_id
                && final(listing).status == old(listing).status
                && final(listing).artist == old(listing).artist,
            r is Err ==> *final(listing) == *old(listing),
    {
        if listing.listing_id != self.listing_id {
            return Err(MarketplaceError::ListingNotFound);
        }
        let recipients = clone_recipients(&self.new_recipients);
        update_listing(
            listing,
            caller,
            self.new_price,
            self.new_token,
            recipients,
            pending_offers,
            bounds,
            registry,
            contract,
            now,
        )
    }
}

/// A copy of a payee list.
fn clone_recipients(v: &Vec<Recipient>) -> (r: Vec<Recipient>)
    ensures
        r@ == v@,
{
    let mut r: Vec<Recipient> = Vec::new();
    let mut i: usize = 0;
    while i < v.len()
        invariant
            i <= v@.len(),
            r@ == v@.take(i as int),
        decreases v@.len() - i,
    {
        r.push(v[i]);
        i = i + 1;
        proof {
            assert(r@ =~= v@.take(i as int));
        }
    }
    proof {
        assert(v@.take(i as int) =~= v@);
    }
    r
}


/// `caller` may change the terms of `l` at `now` with `pending_offers`
/// offers pending: they are its artist, it is active, its expiry (if any)
/// has not passed, and no offer awaits an answer.
pub open spec fn may_edit(l: Listing, caller: AccountId, pending_offers: u32, now: u64) -> bool {
    &&& caller == l.artist
    &&& l.status == ListingStatus::Active
    &&& !(l.expires_at matches Some(e) && now > e)
    &&& pending_offers == 0
}

/// Only the artist may edit an active, unexpired listing with no pending
/// offer.
pub proof fn lemma_editable_exactly_when_allowed(l: Listing, caller: AccountId, pending_offers: u32, now: u64)
    ensures
        editable_verdict(l, caller, pending_offers, now) is Ok <==> may_edit(l, caller, pending_offers, now),
{
}

/// `caller` is the artist of active listing `l`, whose expiry has passed at
/// `now`.
pub open spec fn expired_edit(l: Listing, caller: AccountId, now: u64) -> bool {
    &&& caller == l.artist
    &&& l.status == ListingStatus::Active
    &&& l.expires_at matches Some(e) && now > e
}

/// A listing whose expiry has passed can no longer be edited: its artist's
/// update of the terms, or of the price alone, is refused with
/// `ListingExpired`, whatever the new terms and the pending offers.
pub proof fn lemma_expired_listing_not_editable(
    l: Listing,
    caller: AccountId,
    new_price: i128,
    new_token: AccountId,
    new_recipients: Seq<Recipient>,
    pending_offers: u32,
    bounds: Option<PriceBounds>,
    registry: Seq<crate::whitelist::TokenEntry>,
    contract: AccountId,
    now: u64,
)
    requires
        expired_edit(l, caller, now),
    ensures
        editable_verdict(l, caller, pending_offers, now) == Err::<(), MarketplaceError>(
            MarketplaceError::ListingExpired,
        ),
        update_verdict(
            l,
            caller,
            new_price,
            new_token,
            new_recipients,
            pending_offers,
            bounds,
            registry,
            contract,
            now,
        ) == Err::<(), MarketplaceError>(MarketplaceError::ListingExpired),
{
}

} // verus!
