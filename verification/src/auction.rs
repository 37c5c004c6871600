use vstd::prelude::*;

use crate::errors::MarketplaceError;
use crate::recipients::{recipients_verdict, validate_recipients};
use crate::types::{AccountId, AuctionStatus, Recipient};

verus! {

/// The shortest an auction may run: one hour, in seconds.
pub const MIN_AUCTION_DURATION: u64 = 3_600;

/// An English auction of one escrowed token.
#[derive(Clone, Debug)]
pub struct Auction {
    pub auction_id: u64,
    pub creator: AccountId,
    /// The payment token.
    pub token: AccountId,
    pub collection: AccountId,
    pub token_id: u64,
    /// Lowest acceptable first bid.
    pub reserve_price: i128,
    /// Current highest bid; 0 while there is none.
    pub highest_bid: i128,
    pub highest_bidder: Option<AccountId>,
    /// Ledger timestamp at which bidding closes.
    pub end_time: u64,
    pub status: AuctionStatus,
    /// Who shares the proceeds.
    pub recipients: Vec<Recipient>,
    /// How much a bid must exceed the current highest bid by.
    pub min_increment: i128,
    /// How far past the bid an anti-sniping extension moves the end.
    pub extension_window: u64,
    /// A bid with less than this many seconds left triggers an extension; 0
    /// disables extensions.
    pub extension_trigger: u64,
    /// The protocol fee in force when the auction was created.
    pub protocol_fee_bps: u32,
    /// Capacity of the bid history, fixed at creation.
    pub bid_history_cap: u32,
    /// Most extensions allowed; 0 means unlimited.
    pub max_extensions: u32,
    /// Extensions applied so far.
    pub extension_count: u32,
    /// The end time the auction was created with.
    pub original_end_time: u64,
}

/// An amount owed to an account.
#[derive(Clone, Copy, Debug, PartialEq, Eq, Structural)]
pub struct Payment {
    pub to: AccountId,
    pub amount: i128,
}

/// What a successful bid changed besides the highest bid.
#[derive(Clone, Copy, Debug, PartialEq, Eq, Structural)]
pub struct BidOutcome {
    /// The outbid bidder and the escrow to return to them.
    pub refund: Option<Payment>,
    /// Whether the bid extended the auction's end time.
    pub extended: bool,
}

/// The outcome of creating an auction with these parameters.
pub open spec fn create_auction_verdict(
    reserve_price: i128,
    duration: u64,
    min_increment: i128,
    recipients: Seq<Recipient>,
    protocol_fee_bps: u32,
) -> Result<(), MarketplaceError> {
    if reserve_price <= 0 || reserve_price < min_increment {
        Err(MarketplaceError::InvalidPrice)
    } else if duration < MIN_AUCTION_DURATION {
        Err(MarketplaceError::InvalidAuctionDuration)
    } else {
        recipients_verdict(recipients, protocol_fee_bps)
    }
}

/// The least amount the next bid may be.
pub open spec fn min_next_bid(a: Auction) -> int {
    if a.highest_bidder is None {
        a.reserve_price as int
    } else {
        a.highest_bid + a.min_increment
    }
}

/// The outcome of `bidder` bidding `amount` at `now`.
pub open spec fn bid_verdict(a: Auction, bidder: AccountId, amount: i128, now: u64) -> Result<
    (),
    MarketplaceError,
> {
    if a.status != AuctionStatus::Active {
        Err(MarketplaceError::AuctionNotActive)
    } else if bidder == a.creator {
        Err(MarketplaceError::SelfBidNotAllowed)
    } else if now >= a.end_time {
        Err(MarketplaceError::AuctionExpired)
    } else if amount < min_next_bid(a) {
        Err(MarketplaceError::BidTooLow)
    } else {
        Ok(())
    }
}

/// The end time a bid at `now` moves the auction to, if it triggers an
/// extension: the bid lands with less than `extension_trigger` seconds left,
/// `now + extension_window` is later than the current end, stays within
/// `max_total_duration` of the original end, and the extension cap (if any)
/// is not yet reached.
pub open spec fn extended_end(a: Auction, now: u64, max_total_duration: u64) -> Option<u64> {
    let proposed = now + a.extension_window;
    if a.extension_trigger > 0 && a.end_time - now < a.extension_trigger && proposed > a.end_time
        && proposed <= a.original_end_time + max_total_duration && proposed <= u64::MAX && (
    a.max_extensions == 0 || a.extension_count < a.max_extensions) {
        Some(proposed as u64)
    } else {
        None
    }
}

/// The refund owed to the bidder an accepted bid displaces.
pub open spec fn refund_of(a: Auction) -> Option<Payment> {
    match a.highest_bidder {
        Some(prev) => Some(Payment { to: prev, amount: a.highest_bid }),
        None => None,
    }
}

/// The auction after `bidder`'s bid of `amount` at `now` was accepted.
pub open spec fn after_bid(a: Auction, bidder: AccountId, amount: i128, now: u64, max_total_duration: u64) -> Auction {
    let ext = extended_end(a, now, max_total_duration);
    Auction {
        highest_bid: amount,
        highest_bidder: Some(bidder),
        end_time: match ext {
            Some(e) => e,
            None => a.end_time,
        },
        extension_count: if ext is Some && a.extension_count < u32::MAX {
            (a.extension_count + 1) as u32
        } else {
            a.extension_count
        },
        ..a
    }
}

/// What finalizing pays the creator's side: the winner and the winning bid,
/// or nothing when no bid was placed.
pub open spec fn winning_payment(a: Auction) -> Option<Payment> {
    match a.highest_bidder {
        Some(b) => Some(Payment { to: b, amount: a.highest_bid }),
        None => None,
    }
}

/// What the marketplace holds in escrow for an auction: the highest bid, or
/// nothing before the first bid.
pub open spec fn escrow_held(a: Auction) -> int {
    if a.highest_bidder is Some {
        a.highest_bid as int
    } else {
        0
    }
}

/// The amount of an optional payment, 0 when there is none.
pub open spec fn paid(p: Option<Payment>) -> int {
    match p {
        Some(x) => x.amount as int,
        None => 0,
    }
}

/// The outcome of `caller` cancelling the auction.
pub open spec fn cancel_auction_verdict(a: Auction, caller: AccountId) -> Result<
    (),
    MarketplaceError,
> {
    if caller != a.creator {
        Err(MarketplaceError::Unauthorized)
    } else if a.status != AuctionStatus::Active {
        Err(MarketplaceError::AuctionAlreadyFinalized)
    } else if a.highest_bidder is Some {
        Err(MarketplaceError::AuctionHasBids)
    } else {
        Ok(())
    }
}

/// The outcome of finalizing the auction at `now`.
pub open spec fn finalize_verdict(a: Auction, now: u64) -> Result<(), MarketplaceError> {
    if a.status != AuctionStatus::Active {
        Err(MarketplaceError::AuctionAlreadyFinalized)
    } else if now < a.end_time {
        Err(MarketplaceError::AuctionNotEnded)
    } else {
        Ok(())
    }
}

impl Auction {
    /// Opens an auction by `creator` at `now` that runs for `duration`
    /// seconds. The reserve must be positive and at least `min_increment`,
    /// the duration at least [`MIN_AUCTION_DURATION`], and the payees must
    /// pass the split checks next to the protocol fee.
    pub fn create(
        auction_id: u64,
        creator: AccountId,
        token: AccountId,
        collection: AccountId,
        token_id: u64,
        reserve_price: i128,
        duration: u64,
        min_increment: i128,
        recipients: Vec<Recipient>,
        extension_window: u64,
        extension_trigger: u64,
        protocol_fee_bps: u32,
        bid_history_cap: u32,
        max_extensions: u32,
        now: u64,
    ) -> (r: Result<Auction, MarketplaceError>)
        requires
            now + duration <= u64::MAX,
        ensures
            ({
                let v = create_auction_verdict(
                    reserve_price,
                    duration,
                    min_increment,
                    recipients@,
                    protocol_fee_bps,
                );
                &&& r is Err <==> v is Err
                &&& r matches Err(e) ==> v == Err::<(), MarketplaceError>(e)
                &&& r matches Ok(a) ==> a == (Auction {
                    auction_id,
                    creator,
                    token,
                    collection,
                    token_id,
                    reserve_price,
                    highest_bid: 0,
                    highest_bidder: None,
                    end_time: (now + duration) as u64,
                    status: AuctionStatus::Active,
                    recipients,
                    min_increment,
                    extension_window,
                    extension_trigger,
                    protocol_fee_bps,
                    bid_history_cap,
                    max_extensions,
                    extension_count: 0,
                    original_end_time: (now + duration) as u64,
                })
            }),
    {
        if reserve_price <= 0 || reserve_price < min_increment {
            return Err(MarketplaceError::InvalidPrice);
        }
        if duration < MIN_AUCTION_DURATION {
            return Err(MarketplaceError::InvalidAuctionDuration);
        }
        validate_recipients(&recipients, protocol_fee_bps)?;
        let end_time = now + duration;
        Ok(
            Auction {
                auction_id,
                creator,
                token,
                collection,
                token_id,
                reserve_price,
                highest_bid: 0,
                highest_bidder: None,
                end_time,
                status: AuctionStatus::Active,
                recipients,
                min_increment,
                extension_window,
                extension_trigger,
                protocol_fee_bps,
                bid_history_cap,
                max_extensions,
                extension_count: 0,
                original_end_time: end_time,
            },
        )
    }

    /// Places a bid of `amount` by `bidder` at `now`.
    ///
    /// The auction must be active and still open, the bidder must not be its
    /// creator, and the bid must reach the reserve (first bid) or the highest
    /// bid plus the minimum increment. The outbid bidder is to be refunded
    /// exactly their bid. A late bid may extend the end time (see
    /// [`extended_end`]); an extension that would pass the total-duration cap
    /// is skipped but the bid stands. A refused bid changes nothing.
    pub fn place_bid(&mut self, bidder: AccountId, amount: i128, now: u64, max_total_duration: u64) -> (r:
        Result<BidOutcome, MarketplaceError>)
        ensures
            r is Err <==> bid_verdict(*old(self), bidder, amount, now) is Err,
            r matches Err(e) ==> bid_verdict(*old(self), bidder, amount, now) == Err::<(), MarketplaceError>(e)
                && *final(self) == *old(self),
            r matches Ok(out) ==> {
                &&& out.refund == refund_of(*old(self))
                &&& out.extended == extended_end(*old(self), now, max_total_duration) is Some
                &&& *final(self) == after_bid(*old(self), bidder, amount, now, max_total_duration)
            },
    {
        if self.status != AuctionStatus::Active {
            return Err(MarketplaceError::AuctionNotActive);
        }
        if bidder == self.creator {
            return Err(MarketplaceError::SelfBidNotAllowed);
        }
        if now >= self.end_time {
            return Err(MarketplaceError::AuctionExpired);
        }
        match self.highest_bidder {
            None => {
                if amount < self.reserve_price {
                    return Err(MarketplaceError::BidTooLow);
                }
            },
            Some(_) => {
                match self.highest_bid.checked_add(self.min_increment) {
                    None => {
                        // Out of range above: no amount reaches it. Out of
                        // range below: every amount does.
                        if self.min_increment > 0 {
                            return Err(MarketplaceError::BidTooLow);
                        }
                    },
                    Some(min) => {
                        if amount < min {
                            return Err(MarketplaceError::BidTooLow);
                        }
                    },
                }
            },
        }
        let refund = match self.highest_bidder {
            Some(prev) => Some(Payment { to: prev, amount: self.highest_bid }),
            None => None,
        };
        self.highest_bid = amount;
        self.highest_bidder = Some(bidder);
        let mut extended = false;
        let proposed: u128 = now as u128 + self.extension_window as u128;
        let cap: u128 = self.original_end_time as u128 + max_total_duration as u128;
        if self.extension_trigger > 0 && self.end_time - now < self.extension_trigger && proposed
            > self.end_time as u128 && proposed <= cap && proposed <= u64::MAX as u128 && (
        self.max_extensions == 0 || self.extension_count < self.max_extensions) {
            self.end_time = proposed as u64;
            self.extension_count = self.extension_count.saturating_add(1);
            extended = true;
        }
        Ok(BidOutcome { refund, extended })
    }

    /// Cancels an auction that has received no bid; only its creator may.
    pub fn cancel(&mut self, caller: AccountId) -> (r: Result<(), MarketplaceError>)
        ensures
            r == cancel_auction_verdict(*old(self), caller),
            r is Ok ==> *final(self) == (Auction { status: AuctionStatus::Cancelled, ..*old(self) }),
            r is Err ==> *final(self) == *old(self),
    {
        if caller != self.creator {
            return Err(MarketplaceError::Unauthorized);
        }
        if self.status != AuctionStatus::Active {
            return Err(MarketplaceError::AuctionAlreadyFinalized);
        }
        if self.highest_bidder.is_some() {
            return Err(MarketplaceError::AuctionHasBids);
        }
        self.status = AuctionStatus::Cancelled;
        Ok(())
    }

    /// Cancels an active auction by administrative decision, whether or not
    /// it has bids: it becomes `Cancelled` and the highest bidder, if any, is
    /// to be refunded their bid. An auction that is no longer active is
    /// refused with `InvalidAuctionState`.
    pub fn admin_cancel(&mut self) -> (r: Result<Option<Payment>, MarketplaceError>)
        ensures
            old(self).status != AuctionStatus::Active ==> r == Err::<Option<Payment>, MarketplaceError>(
                MarketplaceError::InvalidAuctionState,
            ) && *final(self) == *old(self),
            old(self).status == AuctionStatus::Active ==> r == Ok::<Option<Payment>, MarketplaceError>(
                refund_of(*old(self)),
            ) && *final(self) == (Auction { status: AuctionStatus::Cancelled, ..*old(self) }),
    {
        if self.status != AuctionStatus::Active {
            return Err(MarketplaceError::InvalidAuctionState);
        }
        self.status = AuctionStatus::Cancelled;
        match self.highest_bidder {
            Some(b) => Ok(Some(Payment { to: b, amount: self.highest_bid })),
            None => Ok(None),
        }
    }

    /// Closes the auction once its end time is reached; anyone may call. With
    /// a winner the auction becomes `Finalized` and the winner and winning bid
    /// are returned; with no bid it becomes `Cancelled`.
    pub fn finalize(&mut self, now: u64) -> (r: Result<Option<Payment>, MarketplaceError>)
        ensures
            r is Err <==> finalize_verdict(*old(self), now) is Err,
            r matches Err(e) ==> finalize_verdict(*old(self), now) == Err::<(), MarketplaceError>(e)
                && *final(self) == *old(self),
            r matches Ok(w) ==> {
                &&& w == winning_payment(*old(self))
                &&& *final(self) == (Auction {
                    status: if w is Some {
                        AuctionStatus::Finalized
                    } else {
                        AuctionStatus::Cancelled
                    },
                    ..*old(self)
                })
            },
    {
        if self.status != AuctionStatus::Active {
            return Err(MarketplaceError::AuctionAlreadyFinalized);
        }
        if now < self.end_time {
            return Err(MarketplaceError::AuctionNotEnded);
        }
        match self.highest_bidder {
            Some(b) => {
                self.status = AuctionStatus::Finalized;
                Ok(Some(Payment { to: b, amount: self.highest_bid }))
            },
            None => {
                self.status = AuctionStatus::Cancelled;
                Ok(None)
            },
        }
    }
}

/// A closed auction stays closed: no bid, cancellation or finalization is
/// accepted once it is `Finalized` or `Cancelled`.
pub proof fn lemma_closed_auction_refuses_everything(
    a: Auction,
    bidder: AccountId,
    amount: i128,
    caller: AccountId,
    now: u64,
)
    requires
        a.status != AuctionStatus::Active,
    ensures
        bid_verdict(a, bidder, amount, now) is Err,
        cancel_auction_verdict(a, caller) is Err,
        finalize_verdict(a, now) is Err,
{
}

/// With a positive minimum increment, every accepted bid beats the one it
/// replaces.
pub proof fn lemma_accepted_bid_raises_highest(a: Auction, bidder: AccountId, amount: i128, now: u64)
    requires
        a.min_increment > 0,
        a.highest_bidder is Some,
        bid_verdict(a, bidder, amount, now) is Ok,
    ensures
        amount > a.highest_bid,
{
}

/// An extension never shortens the auction and never moves its end past the
/// original end plus the total-duration cap.
pub proof fn lemma_extension_bounded(a: Auction, now: u64, max_total_duration: u64)
    requires
        extended_end(a, now, max_total_duration) is Some,
    ensures
        extended_end(a, now, max_total_duration)->Some_0 > a.end_time,
        extended_end(a, now, max_total_duration)->Some_0 <= a.original_end_time + max_total_duration,
{
}

/// No bid lands at or after the end time, so an auction can be finalized
/// exactly when it no longer takes bids (for an active auction).
pub proof fn lemma_bidding_and_finalizing_partition_time(a: Auction, bidder: AccountId, amount: i128, now: u64)
    requires
        a.status == AuctionStatus::Active,
    ensures
        finalize_verdict(a, now) is Ok <==> now >= a.end_time,
        now >= a.end_time ==> bid_verdict(a, bidder, amount, now) is Err,
{
}

/// The escrow always equals the highest bid: taking in an accepted bid and
/// paying out the refund it triggers moves the escrow from the old highest
/// bid to the new one, and finalizing (to the winner's side) or an
/// administrative cancellation (to the bidder) pays out exactly what is held.
pub proof fn lemma_escrow_tracks_highest_bid(
    a: Auction,
    bidder: AccountId,
    amount: i128,
    now: u64,
    max_total_duration: u64,
)
    requires
        bid_verdict(a, bidder, amount, now) is Ok,
    ensures
        escrow_held(a) + amount - paid(refund_of(a)) == escrow_held(
            after_bid(a, bidder, amount, now, max_total_duration),
        ),
        paid(winning_payment(a)) == escrow_held(a),
        paid(refund_of(a)) == escrow_held(a),
{
}

/// An auction can only be cancelled by its creator while nothing is held in
/// escrow for it.
pub proof fn lemma_cancel_leaves_no_escrow(a: Auction, caller: AccountId)
    requires
        cancel_auction_verdict(a, caller) is Ok,
    ensures
        escrow_held(a) == 0,
{
}

} // verus!
