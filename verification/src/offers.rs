use vstd::prelude::*;

use crate::errors::MarketplaceError;
use crate::types::{AccountId, Listing, ListingStatus, Offer, OfferStatus};

verus! {

/// The most offers that may be pending on one listing at a time. Offers that
/// reached a terminal state do not count.
pub const MAX_OFFERS_PER_LISTING: u32 = 50;

/// What is done to a pending offer.
#[derive(Clone, Copy, Debug, PartialEq, Eq, Structural)]
pub enum OfferAction {
    /// The listing's artist takes the offer.
    Accept,
    /// The listing's artist turns the offer down.
    Reject,
    /// The offerer takes the offer back.
    Withdraw,
    /// Anyone returns an expired offer's escrow to the offerer.
    Reclaim,
}

/// The offer can no longer be accepted: its deadline has passed.
pub open spec fn offer_expired(expires_at: Option<u64>, now: u64) -> bool {
    expires_at matches Some(e) && now > e
}

/// Whether `status` is terminal: no transition leaves it.
pub open spec fn is_terminal(status: OfferStatus) -> bool {
    status != OfferStatus::Pending
}

/// The outcome of `caller` performing `action` at `now` on an offer in
/// `status` made by `offerer` on a listing of `artist`.
pub open spec fn offer_transition_verdict(
    action: OfferAction,
    status: OfferStatus,
    offerer: AccountId,
    artist: AccountId,
    caller: AccountId,
    expires_at: Option<u64>,
    now: u64,
) -> Result<OfferStatus, MarketplaceError> {
    if status != OfferStatus::Pending {
        Err(MarketplaceError::InvalidOfferState)
    } else {
        match action {
            OfferAction::Accept => if caller != artist {
                Err(MarketplaceError::InvalidOfferState)
            } else if offer_expired(expires_at, now) {
                Err(MarketplaceError::OfferExpired)
            } else {
                Ok(OfferStatus::Accepted)
            },
            OfferAction::Reject => if caller != artist {
                Err(MarketplaceError::InvalidOfferState)
            } else {
                Ok(OfferStatus::Rejected)
            },
            OfferAction::Withdraw => if caller != offerer {
                Err(MarketplaceError::InvalidOfferState)
            } else {
                Ok(OfferStatus::Withdrawn)
            },
            OfferAction::Reclaim => if !offer_expired(expires_at, now) {
                Err(MarketplaceError::OfferExpired)
            } else {
                Ok(OfferStatus::Withdrawn)
            },
        }
    }
}

/// Moves `offer` on a listing of `artist` as `caller` performing `action` at
/// `now` asks, or says why not; a refused transition leaves the offer as it
/// was.
///
/// Only a pending offer moves; the listing's artist accepts or rejects, the
/// offerer withdraws; an expired offer cannot be accepted, and only an
/// expired offer can be reclaimed (by anyone, for the offerer).
pub fn offer_transition(
    offer: &mut Offer,
    action: OfferAction,
    artist: AccountId,
    caller: AccountId,
    now: u64,
) -> (r: Result<(), MarketplaceError>)
    ensures
        ({
            let v = offer_transition_verdict(
                action,
                old(offer).status,
                old(offer).offerer,
                artist,
                caller,
                old(offer).expires_at,
                now,
            );
            &&& r is Ok <==> v is Ok
            &&& r matches Err(e) ==> v == Err::<OfferStatus, MarketplaceError>(e) && *final(offer)
                == *old(offer)
            &&& r is Ok ==> *final(offer) == (Offer { status: v->Ok_0, ..*old(offer) })
        }),
{
    if offer.status != OfferStatus::Pending {
        return Err(MarketplaceError::InvalidOfferState);
    }
    let expired = match offer.expires_at {
        Some(e) => now > e,
        None => false,
    };
    let next = match action {
        OfferAction::Accept => {
            if caller != artist {
                return Err(MarketplaceError::InvalidOfferState);
            }
            if expired {
                return Err(MarketplaceError::OfferExpired);
            }
            OfferStatus::Accepted
        },
        OfferAction::Reject => {
            if caller != artist {
                return Err(MarketplaceError::InvalidOfferState);
            }
            OfferStatus::Rejected
        },
        OfferAction::Withdraw => {
            if caller != offer.offerer {
                return Err(MarketplaceError::InvalidOfferState);
            }
            OfferStatus::Withdrawn
        },
        OfferAction::Reclaim => {
            if !expired {
                return Err(MarketplaceError::OfferExpired);
            }
            OfferStatus::Withdrawn
        },
    };
    offer.status = next;
    Ok(())
}

/// The outcome of `offerer` offering `amount` on a listing of `artist` in
/// `listing_status` that already has `pending` pending offers.
pub open spec fn new_offer_verdict(
    listing_status: ListingStatus,
    artist: AccountId,
    offerer: AccountId,
    amount: i128,
    pending: u32,
) -> Result<(), MarketplaceError> {
    if listing_status != ListingStatus::Active {
        Err(MarketplaceError::ListingNotActive)
    } else if offerer == artist {
        Err(MarketplaceError::CannotOfferOwnListing)
    } else if amount <= 0 {
        Err(MarketplaceError::InsufficientOfferAmount)
    } else if pending >= MAX_OFFERS_PER_LISTING {
        Err(MarketplaceError::OfferLimitReached)
    } else {
        Ok(())
    }
}

/// Checks a new offer: the listing must be active, the offerer must not be
/// its artist, the amount must be positive, and the listing must have fewer
/// than [`MAX_OFFERS_PER_LISTING`] pending offers.
pub fn validate_new_offer(listing: &Listing, offerer: AccountId, amount: i128, pending: u32) -> (r:
    Result<(), MarketplaceError>)
    ensures
        r == new_offer_verdict(listing.status, listing.artist, offerer, amount, pending),
{
    if listing.status != ListingStatus::Active {
        return Err(MarketplaceError::ListingNotActive);
    }
    if offerer == listing.artist {
        return Err(MarketplaceError::CannotOfferOwnListing);
    }
    if amount <= 0 {
        return Err(MarketplaceError::InsufficientOfferAmount);
    }
    if pending >= MAX_OFFERS_PER_LISTING {
        return Err(MarketplaceError::OfferLimitReached);
    }
    Ok(())
}

/// Number of pending offers among `statuses`.
pub open spec fn pending_count(statuses: Seq<OfferStatus>) -> nat
    decreases statuses.len(),
{
    if statuses.len() == 0 {
        0
    } else {
        pending_count(statuses.drop_last()) + if statuses.last() == OfferStatus::Pending {
            1nat
        } else {
            0nat
        }
    }
}

/// Counts the pending offers among the statuses of a listing's offers.
pub fn count_pending(statuses: &Vec<OfferStatus>) -> (c: u64)
    requires
        statuses@.len() <= u64::MAX,
    ensures
        c == pending_count(statuses@),
{
    let mut c: u64 = 0;
    let mut i: usize = 0;
    while i < statuses.len()
        invariant
            i <= statuses@.len() <= u64::MAX,
            c == pending_count(statuses@.take(i as int)),
            c <= i,
        decreases statuses@.len() - i,
    {
        assert(statuses@.take(i as int + 1).drop_last() =~= statuses@.take(i as int));
        if statuses[i] == OfferStatus::Pending {
            c = c + 1;
        }
        i = i + 1;
    }
    assert(statuses@.take(i as int) =~= statuses@);
    c
}

/// A terminal offer never moves again: every action on it is refused.
pub proof fn lemma_terminal_offers_stay(
    action: OfferAction,
    status: OfferStatus,
    offerer: AccountId,
    artist: AccountId,
    caller: AccountId,
    expires_at: Option<u64>,
    now: u64,
)
    requires
        is_terminal(status),
    ensures
        offer_transition_verdict(action, status, offerer, artist, caller, expires_at, now) is Err,
{
}

/// Every transition that succeeds takes a pending offer to a terminal state.
pub proof fn lemma_transitions_end_terminal(
    action: OfferAction,
    status: OfferStatus,
    offerer: AccountId,
    artist: AccountId,
    caller: AccountId,
    expires_at: Option<u64>,
    now: u64,
)
    requires
        offer_transition_verdict(action, status, offerer, artist, caller, expires_at, now) is Ok,
    ensures
        status == OfferStatus::Pending,
        is_terminal(
            offer_transition_verdict(action, status, offerer, artist, caller, expires_at, now)->Ok_0,
        ),
{
}

/// An expired offer is never accepted, and an offer is reclaimed only once
/// expired.
pub proof fn lemma_expiry_gates_accept_and_reclaim(
    status: OfferStatus,
    offerer: AccountId,
    artist: AccountId,
    caller: AccountId,
    expires_at: Option<u64>,
    now: u64,
)
    ensures
        offer_expired(expires_at, now) ==> offer_transition_verdict(
            OfferAction::Accept,
            status,
            offerer,
            artist,
            caller,
            expires_at,
            now,
        ) is Err,
        offer_transition_verdict(OfferAction::Reclaim, status, offerer, artist, caller, expires_at, now)
            is Ok ==> offer_expired(expires_at, now),
{
}

/// Every transition of a pending offer to a terminal state frees exactly one
/// place under the per-listing cap, and a new offer takes exactly one.
pub proof fn lemma_terminal_transition_frees_capacity(s: Seq<OfferStatus>, i: int, t: OfferStatus)
    requires
        0 <= i < s.len(),
        s[i] == OfferStatus::Pending,
        is_terminal(t),
    ensures
        pending_count(s.update(i, t)) + 1 == pending_count(s),
        pending_count(s.push(OfferStatus::Pending)) == pending_count(s) + 1,
    decreases s.len(),
{
    assert(s.push(OfferStatus::Pending).drop_last() =~= s);
    if i == s.len() - 1 {
        assert(s.update(i, t).drop_last() =~= s.drop_last());
    } else {
        lemma_terminal_transition_frees_capacity(s.drop_last(), i, t);
        assert(s.update(i, t).drop_last() =~= s.drop_last().update(i, t));
    }
}

} // verus!
