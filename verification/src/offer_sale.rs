//! Selling a listing by accepting an offer, and turning down the offers that
//! are still pending when a listing leaves the market.
use vstd::prelude::*;

use crate::auction::Payment;
use crate::errors::MarketplaceError;
use crate::guards::ListingLocks;
use crate::offers::{offer_transition, offer_transition_verdict, OfferAction};
use crate::pause::{paused_for, PauseState};
use crate::purchase::{listing_wf, sold_to};
use crate::recipients::lemma_valid_split_bounds;
use crate::settlement::{royalty_invalid, settle, settlement_overflows, settles, RoyaltyInfo, Settlement};
use crate::types::{AccountId, Listing, ListingStatus, Offer, OfferStatus};
use crate::whitelist::{payment_token_verdict, TokenRegistry};

verus! {

/// An offer after the sweep: turned down if it was pending.
pub open spec fn swept(o: Offer) -> Offer {
    if o.status == OfferStatus::Pending {
        Offer { status: OfferStatus::Rejected, ..o }
    } else {
        o
    }
}

/// The refunds the sweep of `s` owes, in order: each pending offer except
/// the one at index `keep` gets its amount back.
pub open spec fn sweep_refunds(s: Seq<Offer>, keep: int) -> Seq<Payment>
    decreases s.len(),
{
    if s.len() == 0 {
        Seq::empty()
    } else {
        let prev = sweep_refunds(s.drop_last(), keep);
        if s.last().status == OfferStatus::Pending && s.len() - 1 != keep {
            prev.push(Payment { to: s.last().offerer, amount: s.last().amount })
        } else {
            prev
        }
    }
}

/// Turns down every pending offer of `offers` except the one at `keep` (if
/// any) and returns the refunds owed, in order. Other offers are left as
/// they were.
pub fn reject_pending_offers(offers: &mut Vec<Offer>, keep: Option<usize>) -> (refunds: Vec<Payment>)
    ensures
        final(offers)@.len() == old(offers)@.len(),
        forall|i: int|
            0 <= i < old(offers)@.len() ==> #[trigger] final(offers)@[i] == (if keep == Some(i as usize) {
                old(offers)@[i]
            } else {
                swept(old(offers)@[i])
            }),
        refunds@ == sweep_refunds(
            old(offers)@,
            match keep {
                Some(k) => k as int,
                None => -1,
            },
        ),
{
    let ghost k: int = match keep {
        Some(k) => k as int,
        None => -1,
    };
    let ghost before = offers@;
    let mut refunds: Vec<Payment> = Vec::new();
    let mut i: usize = 0;
    while i < offers.len()
        invariant
            offers@.len() == before.len(),
            i <= before.len(),
            k == (match keep {
                Some(x) => x as int,
                None => -1,
            }),
            forall|j: int|
                0 <= j < i ==> #[trigger] offers@[j] == (if keep == Some(j as usize) {
                    before[j]
                } else {
                    swept(before[j])
                }),
            forall|j: int| i <= j < before.len() ==> #[trigger] offers@[j] == before[j],
            refunds@ == sweep_refunds(before.take(i as int), k),
        decreases before.len() - i,
    {
        let o = offers[i];
        assert(before.take(i as int + 1).drop_last() =~= before.take(i as int));
        assert(before.take(i as int + 1).last() == before[i as int]);
        let kept = match keep {
            Some(x) => x == i,
            None => false,
        };
        if o.status == OfferStatus::Pending && !kept {
            refunds.push(Payment { to: o.offerer, amount: o.amount });
            offers.set(i, Offer { status: OfferStatus::Rejected, ..o });
        }
        i = i + 1;
    }
    assert(before.take(i as int) =~= before);
    refunds
}

/// What accepting an offer produces: the division of its amount and the
/// refunds of the competing offers that were turned down.
#[derive(Debug)]
pub struct OfferSale {
    pub settlement: Settlement,
    pub refunds: Vec<Payment>,
}

/// Everything accepting offer `index` of `before` on listing `l` may do, once
/// the circuit breakers and the lock have let it through.
pub open spec fn acceptance_done(
    l: Listing,
    after: Listing,
    before: Seq<Offer>,
    offers_after: Seq<Offer>,
    index: int,
    caller: AccountId,
    now: u64,
    registry: Seq<crate::whitelist::TokenEntry>,
    contract: AccountId,
    treasury_set: bool,
    royalty: Option<RoyaltyInfo>,
    r: Result<OfferSale, MarketplaceError>,
) -> bool {
    let o = before[index];
    let unchanged = after == l && offers_after == before;
    if l.status != ListingStatus::Active {
        r == Err::<OfferSale, MarketplaceError>(MarketplaceError::ListingNotActive) && unchanged
    } else if offer_transition_verdict(
        OfferAction::Accept,
        o.status,
        o.offerer,
        l.artist,
        caller,
        o.expires_at,
        now,
    ) is Err {
        r == Err::<OfferSale, MarketplaceError>(
            offer_transition_verdict(
                OfferAction::Accept,
                o.status,
                o.offerer,
                l.artist,
                caller,
                o.expires_at,
                now,
            )->Err_0,
        ) && unchanged
    } else if payment_token_verdict(registry, o.token, l.collection, contract) is Err {
        r == Err::<OfferSale, MarketplaceError>(MarketplaceError::TokenNotWhitelisted) && unchanged
    } else if o.amount <= 0 {
        r == Err::<OfferSale, MarketplaceError>(MarketplaceError::InvalidPrice) && unchanged
    } else if royalty_invalid(royalty) {
        r == Err::<OfferSale, MarketplaceError>(MarketplaceError::InvalidRoyalty) && unchanged
    } else if settlement_overflows(
        o.amount as int,
        l.artist,
        l.recipients@,
        l.protocol_fee_bps,
        treasury_set,
        royalty,
    ) {
        r == Err::<OfferSale, MarketplaceError>(MarketplaceError::ArithmeticOverflow) && unchanged
    } else {
        &&& r is Ok
        &&& settles(
            r->Ok_0.settlement,
            o.amount as int,
            l.artist,
            l.recipients@,
            l.protocol_fee_bps,
            treasury_set,
            royalty,
        )
        &&& r->Ok_0.refunds@ == sweep_refunds(before, index)
        &&& after == sold_to(l, o.offerer)
        &&& offers_after.len() == before.len()
        &&& offers_after[index] == (Offer { status: OfferStatus::Accepted, ..o })
        &&& forall|i: int|
            0 <= i < before.len() && i != index ==> #[trigger] offers_after[i] == swept(before[i])
    }
}

fn accept_locked(
    listing: &mut Listing,
    offers: &mut Vec<Offer>,
    index: usize,
    caller: AccountId,
    now: u64,
    registry: &TokenRegistry,
    contract: AccountId,
    treasury_set: bool,
    royalty: Option<RoyaltyInfo>,
) -> (r: Result<OfferSale, MarketplaceError>)
    requires
        listing_wf(*old(listing)),
        index < old(offers)@.len(),
    ensures
        acceptance_done(
            *old(listing),
            *final(listing),
            old(offers)@,
            final(offers)@,
            index as int,
            caller,
            now,
            registry.view(),
            contract,
            treasury_set,
            royalty,
            r,
        ),
{
    proof {
        lemma_valid_split_bounds(listing.recipients@, listing.protocol_fee_bps);
    }
    if listing.status != ListingStatus::Active {
        return Err(MarketplaceError::ListingNotActive);
    }
    let mut o = offers[index];
    offer_transition(&mut o, OfferAction::Accept, listing.artist, caller, now)?;
    registry.check_payment_token(o.token, listing.collection, contract)?;
    let st = settle(
        o.amount,
        listing.artist,
        &listing.recipients,
        listing.protocol_fee_bps,
        treasury_set,
        royalty,
    )?;
    let n = offers.len();
    let ghost before = offers@;
    let refunds = reject_pending_offers(offers, Some(index));
    let ghost mid = offers@;
    offers.set(index, o);
    proof {
        assert forall|i: int| 0 <= i < before.len() && i != index implies #[trigger] offers@[i]
            == swept(before[i]) by {
            assert(before.len() == n);
            assert(Some(index) != Some(i as usize));
            assert(mid[i] == swept(before[i]));
        }
    }
    listing.status = ListingStatus::Sold;
    listing.owner = Some(o.offerer);
    Ok(OfferSale { settlement: st, refunds })
}

/// The listing's artist (`caller`) accepts offer `index` of the listing's
/// offers at `now`.
///
/// Refused with `ContractPaused` while `accept_offer` or the collection is
/// paused and with `ReentrancyGuard` while a settlement of the listing is in
/// progress. Then the listing must be active, the offer must be acceptable
/// by the caller and unexpired, its token still accepted, and its amount is
/// settled; the listing is sold to the offerer, the offer becomes
/// `Accepted`, and every other pending offer is turned down and refunded. A
/// refused acceptance changes nothing, the locks included. An accepted one
/// leaves the listing's lock held while the caller makes the payouts and
/// transfers; the caller then gives it back with
/// [`ListingLocks::release`].
pub fn accept_offer(
    listing: &mut Listing,
    offers: &mut Vec<Offer>,
    index: usize,
    caller: AccountId,
    now: u64,
    pause: &PauseState,
    locks: &mut ListingLocks,
    registry: &TokenRegistry,
    contract: AccountId,
    treasury_set: bool,
    royalty: Option<RoyaltyInfo>,
) -> (r: Result<OfferSale, MarketplaceError>)
    requires
        listing_wf(*old(listing)),
        index < old(offers)@.len(),
    ensures
        r is Err ==> final(locks).view() == old(locks).view(),
        r is Ok ==> final(locks).view() == old(locks).view().insert(old(listing).listing_id),
        paused_for(*pause, Some(old(listing).collection), "accept_offer"@) ==> r == Err::<
            OfferSale,
            MarketplaceError,
        >(MarketplaceError::ContractPaused) && *final(listing) == *old(listing) && final(offers)@
            == old(offers)@,
        !paused_for(*pause, Some(old(listing).collection), "accept_offer"@) && old(locks).view().contains(
            old(listing).listing_id,
        ) ==> r == Err::<OfferSale, MarketplaceError>(MarketplaceError::ReentrancyGuard)
            && *final(listing) == *old(listing) && final(offers)@ == old(offers)@,
        !paused_for(*pause, Some(old(listing).collection), "accept_offer"@) && !old(locks).view().contains(
            old(listing).listing_id,
        ) ==> acceptance_done(
            *old(listing),
            *final(listing),
            old(offers)@,
            final(offers)@,
            index as int,
            caller,
            now,
            registry.view(),
            contract,
            treasury_set,
            royalty,
            r,
        ),
{
    let function = "accept_offer".to_owned();
    proof {
        reveal_strlit("accept_offer");
    }
    pause.require_not_paused(Some(listing.collection), &function)?;
    let id = listing.listing_id;
    let ghost held = locks.view();
    match locks.enter(id) {
        Err(e) => {
            proof {
                assert(held.insert(id) =~= held);
            }
            return Err(e);
        },
        Ok(()) => {},
    }
    let r = accept_locked(listing, offers, index, caller, now, registry, contract, treasury_set, royalty);
    if r.is_err() {
        locks.release(id);
        proof {
            assert(held.insert(id).remove(id) =~= held);
        }
    }
    r
}

/// The artist cancels `listing`: it must be theirs and active. The listing
/// becomes `Cancelled` (its token is to go back to the artist) and every
/// pending offer on it is turned down, with the refunds returned in order.
/// A refused cancellation changes nothing.
pub fn cancel_listing(listing: &mut Listing, offers: &mut Vec<Offer>, caller: AccountId) -> (r: Result<
    Vec<Payment>,
    MarketplaceError,
>)
    ensures
        r is Err <==> crate::custody::cancel_listing_verdict(old(listing).status, old(listing).artist, caller) is Err,
        r matches Err(e) ==> crate::custody::cancel_listing_verdict(
            old(listing).status,
            old(listing).artist,
            caller,
        ) == Err::<(), MarketplaceError>(e) && *final(listing) == *old(listing) && final(offers)@
            == old(offers)@,
        r matches Ok(refunds) ==> {
            &&& *final(listing) == (Listing { status: ListingStatus::Cancelled, ..*old(listing) })
            &&& refunds@ == sweep_refunds(old(offers)@, -1)
            &&& final(offers)@.len() == old(offers)@.len()
            &&& forall|i: int| 0 <= i < old(offers)@.len() ==> #[trigger] final(offers)@[i] == swept(old(offers)@[i])
        },
{
    crate::custody::check_cancel_listing(listing, caller)?;
    listing.status = ListingStatus::Cancelled;
    Ok(reject_pending_offers(offers, None))
}

/// An offer that went through the sweep is no longer pending, and keeps the
/// offerer and amount that its refund pays back.
pub proof fn lemma_sweep_leaves_nothing_pending(o: Offer)
    ensures
        swept(o).status != OfferStatus::Pending,
        swept(o).amount == o.amount && swept(o).offerer == o.offerer,
{
}

/// `offerer` offers `amount` of `token` for `listing` (offer `offer_id`, at
/// ledger `ledger`), while `pending` offers are pending on it. Refused with
/// `ContractPaused` while `make_offer` or the collection is paused; then the
/// listing and amount checks of [`validate_new_offer`]; then the token must
/// be accepted. The new offer is pending; its amount is to be escrowed.
pub fn make_offer(
    listing: &Listing,
    offer_id: u64,
    offerer: AccountId,
    amount: i128,
    token: AccountId,
    expires_at: Option<u64>,
    pending: u32,
    ledger: u32,
    pause: &PauseState,
    registry: &TokenRegistry,
    contract: AccountId,
) -> (r: Result<Offer, MarketplaceError>)
    ensures
        paused_for(*pause, Some(listing.collection), "make_offer"@) ==> r == Err::<Offer, MarketplaceError>(
            MarketplaceError::ContractPaused,
        ),
        !paused_for(*pause, Some(listing.collection), "make_offer"@) ==> {
            let v = crate::offers::new_offer_verdict(listing.status, listing.artist, offerer, amount, pending);
            let t = payment_token_verdict(registry.view(), token, listing.collection, contract);
            &&& v is Err ==> r == Err::<Offer, MarketplaceError>(v->Err_0)
            &&& v is Ok && t is Err ==> r == Err::<Offer, MarketplaceError>(t->Err_0)
            &&& v is Ok && t is Ok ==> r == Ok::<Offer, MarketplaceError>(
                Offer {
                    offer_id,
                    listing_id: listing.listing_id,
                    offerer,
                    amount,
                    token,
                    status: OfferStatus::Pending,
                    created_at: ledger,
                    expires_at,
                },
            )
        },
{
    let function = "make_offer".to_owned();
    proof {
        reveal_strlit("make_offer");
    }
    pause.require_not_paused(Some(listing.collection), &function)?;
    crate::offers::validate_new_offer(listing, offerer, amount, pending)?;
    registry.check_payment_token(token, listing.collection, contract)?;
    Ok(
        Offer {
            offer_id,
            listing_id: listing.listing_id,
            offerer,
            amount,
            token,
            status: OfferStatus::Pending,
            created_at: ledger,
            expires_at,
        },
    )
}

/// Ends `offer` without a sale (`Reject` by the listing's artist, `Withdraw`
/// by the offerer, `Reclaim` by anyone once expired) and returns the refund
/// of its escrow to the offerer. A refused transition changes nothing.
pub fn close_offer(
    offer: &mut Offer,
    action: OfferAction,
    artist: AccountId,
    caller: AccountId,
    now: u64,
) -> (r: Result<Payment, MarketplaceError>)
    requires
        action != OfferAction::Accept,
    ensures
        ({
            let v = offer_transition_verdict(
                action,
                old(offer).status,
                old(offer).offerer,
                artist,
                caller,
                old(offer).expires_at,
                now,
            );
            &&& v is Err ==> r == Err::<Payment, MarketplaceError>(v->Err_0) && *final(offer) == *old(offer)
            &&& v is Ok ==> r == Ok::<Payment, MarketplaceError>(
                Payment { to: old(offer).offerer, amount: old(offer).amount },
            ) && *final(offer) == (Offer { status: v->Ok_0, ..*old(offer) })
        }),
{
    offer_transition(offer, action, artist, caller, now)?;
    Ok(Payment { to: offer.offerer, amount: offer.amount })
}

/// An offer ended without a sale hands back exactly what it escrowed, to
/// the offerer, and never stays pending.
pub proof fn lemma_closed_offer_refunds_escrow(
    o: Offer,
    action: OfferAction,
    artist: AccountId,
    caller: AccountId,
    now: u64,
)
    requires
        action != OfferAction::Accept,
        offer_transition_verdict(action, o.status, o.offerer, artist, caller, o.expires_at, now) is Ok,
    ensures
        o.status == OfferStatus::Pending,
        offer_transition_verdict(action, o.status, o.offerer, artist, caller, o.expires_at, now)->Ok_0
            != OfferStatus::Pending,
        offer_transition_verdict(action, o.status, o.offerer, artist, caller, o.expires_at, now)->Ok_0
            != OfferStatus::Accepted,
{
}

} // verus!
