//! Closing an auction: finalization together with the settlement of the
//! winning bid.
use vstd::prelude::*;

use crate::auction::{after_bid, bid_verdict, finalize_verdict, refund_of, Auction, BidOutcome};
use crate::bid_history::{retained, BidHistory, BidRecord};
use crate::errors::MarketplaceError;
use crate::pause::{paused_for, PauseState};
use crate::recipients::{lemma_valid_split_bounds, recipients_verdict};
use crate::settlement::{royalty_invalid, settle, settlement_overflows, settles, RoyaltyInfo, Settlement};
use crate::types::{AccountId, AuctionStatus};
use crate::whitelist::{payment_token_verdict, TokenRegistry};

verus! {

/// A stored auction is well formed: its payees pass the split checks next
/// to the fee it snapshotted. Creation establishes this.
pub open spec fn auction_wf(a: Auction) -> bool {
    recipients_verdict(a.recipients@, a.protocol_fee_bps) is Ok
}

/// How an auction closed.
#[derive(Debug)]
pub enum AuctionClose {
    /// The winner gets the token; the winning bid is divided as given.
    Sold { winner: AccountId, settlement: Settlement },
    /// No bid was placed: the token is to go back to the creator.
    Unsold,
}

/// Everything closing `a` at `now` may do once the circuit breakers let it
/// through.
pub open spec fn close_done(
    a: Auction,
    after: Auction,
    now: u64,
    registry: Seq<crate::whitelist::TokenEntry>,
    contract: AccountId,
    treasury_set: bool,
    royalty: Option<RoyaltyInfo>,
    r: Result<AuctionClose, MarketplaceError>,
) -> bool {
    if finalize_verdict(a, now) is Err {
        r == Err::<AuctionClose, MarketplaceError>(finalize_verdict(a, now)->Err_0) && after == a
    } else if a.highest_bidder is None {
        r == Ok::<AuctionClose, MarketplaceError>(AuctionClose::Unsold) && after == (Auction {
            status: AuctionStatus::Cancelled,
            ..a
        })
    } else if payment_token_verdict(registry, a.token, a.collection, contract) is Err {
        r == Err::<AuctionClose, MarketplaceError>(MarketplaceError::TokenNotWhitelisted) && after == a
    } else if a.highest_bid <= 0 {
        r == Err::<AuctionClose, MarketplaceError>(MarketplaceError::InvalidPrice) && after == a
    } else if royalty_invalid(royalty) {
        r == Err::<AuctionClose, MarketplaceError>(MarketplaceError::InvalidRoyalty) && after == a
    } else if settlement_overflows(
        a.highest_bid as int,
        a.creator,
        a.recipients@,
        a.protocol_fee_bps,
        treasury_set,
        royalty,
    ) {
        r == Err::<AuctionClose, MarketplaceError>(MarketplaceError::ArithmeticOverflow) && after == a
    } else {
        &&& r matches Ok(AuctionClose::Sold { winner, settlement })
        &&& r->Ok_0->winner == a.highest_bidder->Some_0
        &&& settles(
            r->Ok_0->settlement,
            a.highest_bid as int,
            a.creator,
            a.recipients@,
            a.protocol_fee_bps,
            treasury_set,
            royalty,
        )
        &&& after == (Auction { status: AuctionStatus::Finalized, ..a })
    }
}

/// Closes `auction` at `now` (anyone may call): refused with `ContractPaused`
/// while `finalize_auction` or the collection is paused, then as
/// [`finalize_verdict`] says. Without a bid the auction becomes `Cancelled`;
/// with one, the payment token must still be accepted and the winning bid
/// is settled with the payees and fee the auction snapshotted, and the
/// auction becomes `Finalized`. A refused close changes nothing.
pub fn finalize_auction(
    auction: &mut Auction,
    now: u64,
    pause: &PauseState,
    registry: &TokenRegistry,
    contract: AccountId,
    treasury_set: bool,
    royalty: Option<RoyaltyInfo>,
) -> (r: Result<AuctionClose, MarketplaceError>)
    requires
        auction_wf(*old(auction)),
    ensures
        paused_for(*pause, Some(old(auction).collection), "finalize_auction"@) ==> r == Err::<
            AuctionClose,
            MarketplaceError,
        >(MarketplaceError::ContractPaused) && *final(auction) == *old(auction),
        !paused_for(*pause, Some(old(auction).collection), "finalize_auction"@) ==> close_done(
            *old(auction),
            *final(auction),
            now,
            registry.view(),
            contract,
            treasury_set,
            royalty,
            r,
        ),
{
    let function = "finalize_auction".to_owned();
    proof {
        reveal_strlit("finalize_auction");
        lemma_valid_split_bounds(auction.recipients@, auction.protocol_fee_bps);
    }
    pause.require_not_paused(Some(auction.collection), &function)?;
    if auction.status != AuctionStatus::Active {
        return Err(MarketplaceError::AuctionAlreadyFinalized);
    }
    if now < auction.end_time {
        return Err(MarketplaceError::AuctionNotEnded);
    }
    match auction.highest_bidder {
        None => {
            auction.status = AuctionStatus::Cancelled;
            Ok(AuctionClose::Unsold)
        },
        Some(winner) => {
            registry.check_payment_token(auction.token, auction.collection, contract)?;
            let settlement = settle(
                auction.highest_bid,
                auction.creator,
                &auction.recipients,
                auction.protocol_fee_bps,
                treasury_set,
                royalty,
            )?;
            auction.status = AuctionStatus::Finalized;
            Ok(AuctionClose::Sold { winner, settlement })
        },
    }
}

/// `bidder` bids `amount` at `now` (ledger `ledger`). Refused with
/// `ContractPaused` while `place_bid` or the collection is paused; then as
/// [`Auction::place_bid`]. An accepted bid is recorded in the auction's
/// history, which keeps the most recent bids up to its capacity; a refused
/// bid changes neither the auction nor the history.
pub fn bid(
    auction: &mut Auction,
    history: &mut BidHistory,
    bidder: AccountId,
    amount: i128,
    now: u64,
    ledger: u32,
    max_total_duration: u64,
    pause: &PauseState,
) -> (r: Result<BidOutcome, MarketplaceError>)
    ensures
        final(history).capacity() == old(history).capacity(),
        paused_for(*pause, Some(old(auction).collection), "place_bid"@) ==> r == Err::<
            BidOutcome,
            MarketplaceError,
        >(MarketplaceError::ContractPaused) && *final(auction) == *old(auction) && *final(history)
            == *old(history),
        !paused_for(*pause, Some(old(auction).collection), "place_bid"@) ==> {
            &&& r is Err <==> bid_verdict(*old(auction), bidder, amount, now) is Err
            &&& r matches Err(e) ==> bid_verdict(*old(auction), bidder, amount, now) == Err::<
                (),
                MarketplaceError,
            >(e) && *final(auction) == *old(auction) && *final(history) == *old(history)
            &&& r matches Ok(out) ==> {
                &&& out.refund == refund_of(*old(auction))
                &&& *final(auction) == after_bid(*old(auction), bidder, amount, now, max_total_duration)
                &&& final(history).view() == retained(
                    old(history).view().push(BidRecord { bidder, amount, ledger }),
                    old(history).capacity(),
                )
            }
        },
{
    let function = "place_bid".to_owned();
    proof {
        reveal_strlit("place_bid");
    }
    pause.require_not_paused(Some(auction.collection), &function)?;
    let out = auction.place_bid(bidder, amount, now, max_total_duration)?;
    history.push(BidRecord { bidder, amount, ledger });
    Ok(out)
}

} // verus!
