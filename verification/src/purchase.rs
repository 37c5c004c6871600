//! Buying a listing at its fixed price: the gates, the settlement lock, the
//! expiry path that closes the listing instead, and the settlement itself.
use vstd::prelude::*;

use crate::errors::MarketplaceError;
use crate::guards::ListingLocks;
use crate::listing::{decide_purchase, purchase_of, PurchaseDecision};
use crate::pause::{paused_for, PauseState};
use crate::recipients::{lemma_valid_split_bounds, recipients_verdict};
use crate::settlement::{royalty_invalid, settle, settlement_overflows, settles, RoyaltyInfo, Settlement};
use crate::types::{AccountId, Listing, ListingStatus};
use crate::whitelist::{payment_token_verdict, TokenRegistry};

verus! {

/// A stored listing is well formed: its price is positive and its payees
/// pass the split checks next to the fee it snapshotted. Creation and every
/// update establish this.
pub open spec fn listing_wf(l: Listing) -> bool {
    l.price > 0 && recipients_verdict(l.recipients@, l.protocol_fee_bps) is Ok
}

/// What a purchase attempt did.
#[derive(Debug)]
pub enum PurchaseOutcome {
    /// The listing was sold; the proceeds are divided as given.
    Sold(Settlement),
    /// The listing had expired: it was closed and its token is to go back to
    /// the artist; nothing was paid.
    Expired,
}

/// The listing once sold to `buyer`.
pub open spec fn sold_to(l: Listing, buyer: AccountId) -> Listing {
    Listing { status: ListingStatus::Sold, owner: Some(buyer), ..l }
}

/// The listing once closed on expiry.
pub open spec fn closed_on_expiry(l: Listing) -> Listing {
    Listing { status: ListingStatus::Cancelled, ..l }
}

/// Everything a purchase of `l` by `buyer` at `now` may do, once the
/// circuit breakers and the lock have let it through.
pub open spec fn purchase_done(
    l: Listing,
    after: Listing,
    buyer: AccountId,
    now: u64,
    registry: Seq<crate::whitelist::TokenEntry>,
    contract: AccountId,
    treasury_set: bool,
    royalty: Option<RoyaltyInfo>,
    r: Result<PurchaseOutcome, MarketplaceError>,
) -> bool {
    match purchase_of(l, buyer, now) {
        Err(e) => r == Err::<PurchaseOutcome, MarketplaceError>(e) && after == l,
        Ok(PurchaseDecision::CloseExpired) => r == Ok::<PurchaseOutcome, MarketplaceError>(
            PurchaseOutcome::Expired,
        ) && after == closed_on_expiry(l),
        Ok(PurchaseDecision::Settle) => if payment_token_verdict(registry, l.token, l.collection, contract) is Err {
            r == Err::<PurchaseOutcome, MarketplaceError>(MarketplaceError::TokenNotWhitelisted)
                && after == l
        } else if royalty_invalid(royalty) {
            r == Err::<PurchaseOutcome, MarketplaceError>(MarketplaceError::InvalidRoyalty)
                && after == l
        } else if settlement_overflows(
            l.price as int,
            l.artist,
            l.recipients@,
            l.protocol_fee_bps,
            treasury_set,
            royalty,
        ) {
            r == Err::<PurchaseOutcome, MarketplaceError>(MarketplaceError::ArithmeticOverflow)
                && after == l
        } else {
            &&& r matches Ok(PurchaseOutcome::Sold(st))
            &&& settles(
                r->Ok_0->Sold_0,
                l.price as int,
                l.artist,
                l.recipients@,
                l.protocol_fee_bps,
                treasury_set,
                royalty,
            )
            &&& after == sold_to(l, buyer)
        },
    }
}

fn purchase_locked(
    listing: &mut Listing,
    buyer: AccountId,
    now: u64,
    registry: &TokenRegistry,
    contract: AccountId,
    treasury_set: bool,
    royalty: Option<RoyaltyInfo>,
) -> (r: Result<PurchaseOutcome, MarketplaceError>)
    requires
        listing_wf(*old(listing)),
    ensures
        purchase_done(
            *old(listing),
            *final(listing),
            buyer,
            now,
            registry.view(),
            contract,
            treasury_set,
            royalty,
            r,
        ),
{
    proof {
        lemma_valid_split_bounds(listing.recipients@, listing.protocol_fee_bps);
    }
    match decide_purchase(listing, buyer, now)? {
        PurchaseDecision::CloseExpired => {
            listing.status = ListingStatus::Cancelled;
            Ok(PurchaseOutcome::Expired)
        },
        PurchaseDecision::Settle => {
            registry.check_payment_token(listing.token, listing.collection, contract)?;
            let st = settle(
                listing.price,
                listing.artist,
                &listing.recipients,
                listing.protocol_fee_bps,
                treasury_set,
                royalty,
            )?;
            listing.status = ListingStatus::Sold;
            listing.owner = Some(buyer);
            Ok(PurchaseOutcome::Sold(st))
        },
    }
}

/// `buyer` buys `listing` at `now`.
///
/// Refused with `ContractPaused` while the `buy_artwork` entry point or the
/// listing's collection is paused, and with `ReentrancyGuard` while a
/// settlement of the same listing is in progress. Then as [`purchase_of`]
/// decides: an expired listing is closed instead of sold; otherwise the
/// payment token must still be accepted and the proceeds are settled, and
/// the listing is sold to the buyer. A refused purchase leaves the listing
/// and the locks as they were. An accepted one leaves the listing's lock
/// held: the caller makes the payouts and the token transfer, during which
/// any nested purchase or acceptance of the listing is refused, and then
/// gives the lock back with [`ListingLocks::release`].
pub fn buy_artwork(
    listing: &mut Listing,
    buyer: AccountId,
    now: u64,
    pause: &PauseState,
    locks: &mut ListingLocks,
    registry: &TokenRegistry,
    contract: AccountId,
    treasury_set: bool,
    royalty: Option<RoyaltyInfo>,
) -> (r: Result<PurchaseOutcome, MarketplaceError>)
    requires
        listing_wf(*old(listing)),
    ensures
        r is Err ==> final(locks).view() == old(locks).view(),
        r is Ok ==> final(locks).view() == old(locks).view().insert(old(listing).listing_id),
        paused_for(*pause, Some(old(listing).collection), "buy_artwork"@) ==> r == Err::<
            PurchaseOutcome,
            MarketplaceError,
        >(MarketplaceError::ContractPaused) && *final(listing) == *old(listing),
        !paused_for(*pause, Some(old(listing).collection), "buy_artwork"@) && old(locks).view().contains(
            old(listing).listing_id,
        ) ==> r == Err::<PurchaseOutcome, MarketplaceError>(MarketplaceError::ReentrancyGuard)
            && *final(listing) == *old(listing),
        !paused_for(*pause, Some(old(listing).collection), "buy_artwork"@) && !old(locks).view().contains(
            old(listing).listing_id,
        ) ==> purchase_done(
            *old(listing),
            *final(listing),
            buyer,
            now,
            registry.view(),
            contract,
            treasury_set,
            royalty,
            r,
        ),
{
    let function = "buy_artwork".to_owned();
    proof {
        reveal_strlit("buy_artwork");
    }
    pause.require_not_paused(Some(listing.collection), &function)?;
    let id = listing.listing_id;
    let ghost held = locks.view();
    match locks.enter(id) {
        Err(e) => {
            proof {
                assert(held.insert(id) =~= held);
            }
            return Err(e);
        },
        Ok(()) => {},
    }
    let r = purchase_locked(listing, buyer, now, registry, contract, treasury_set, royalty);
    if r.is_err() {
        locks.release(id);
        proof {
            assert(held.insert(id).remove(id) =~= held);
        }
    }
    r
}

} // verus!
