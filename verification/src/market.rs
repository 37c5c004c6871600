//! The marketplace state as a whole: the listings, offers and auctions under
//! their sequential ids, the index of active listings and the tokens in
//! custody. Every operation keeps the index equal to the set of active
//! listings and the custody equal to the tokens of the active listings and
//! auctions, and says how the funds the marketplace holds in escrow change.
use vstd::prelude::*;

use crate::auction::{
    after_bid, bid_verdict, cancel_auction_verdict, create_auction_verdict, escrow_held,
    lemma_cancel_leaves_no_escrow, lemma_escrow_tracks_highest_bid, paid, refund_of, winning_payment, Auction,
    BidOutcome, Payment,
};
use crate::batch::ListingRules;
use crate::bid_history::{retained, BidHistory, BidRecord};
use crate::closing::{auction_wf, close_done, AuctionClose};
use crate::config::ProtocolConfig;
use crate::custody::{record_of, EscrowLedger, EscrowPurpose, EscrowRecord};
use crate::holdings::{
    auction_record, custody_holds, ids_in_order, lemma_auction_kept, lemma_close_auction, lemma_close_listing,
    lemma_open_auction, lemma_open_listing, listing_record, released,
};
use crate::creation::{create_listing_result, gate_verdict};
use crate::errors::MarketplaceError;
use crate::guards::{ListingLocks, RevokedArtists};
use crate::index::PagedIndex;
use crate::offer_sale::OfferSale;
use crate::offers::{new_offer_verdict, offer_transition_verdict, OfferAction, MAX_OFFERS_PER_LISTING};
use crate::pause::{paused_for, PauseState};
use crate::purchase::{buy_artwork, listing_wf, purchase_done, sold_to, PurchaseOutcome};
use crate::revocation::{active_of, after_batch, count_active, min_nat};
use crate::settlement::{royalty_invalid, settlement_overflows, settles, RoyaltyInfo};
use crate::types::{
    AccountId, AuctionStatus, BatchCreateListingInput, CollectionStandard, Listing, ListingStatus, Offer,
    OfferStatus, Recipient,
};
use crate::whitelist::{payment_token_verdict, TokenRegistry};

verus! {

/// What an offer holds in escrow: its amount while it is pending.
pub open spec fn offer_held(o: Offer) -> int {
    if o.status == OfferStatus::Pending {
        o.amount as int
    } else {
        0
    }
}

/// What the offers of `s` hold in escrow together.
pub open spec fn offers_escrow(s: Seq<Offer>) -> int
    decreases s.len(),
{
    if s.len() == 0 {
        0
    } else {
        offers_escrow(s.drop_last()) + offer_held(s.last())
    }
}

/// What an auction holds in escrow: its highest bid while it is active.
pub open spec fn auction_held(a: Auction) -> int {
    if a.status == AuctionStatus::Active {
        escrow_held(a)
    } else {
        0
    }
}

/// What the auctions of `s` hold in escrow together.
pub open spec fn auctions_escrow(s: Seq<Auction>) -> int
    decreases s.len(),
{
    if s.len() == 0 {
        0
    } else {
        auctions_escrow(s.drop_last()) + auction_held(s.last())
    }
}

/// Replacing one auction changes the escrow by the difference of what the
/// two hold.
pub proof fn lemma_auctions_escrow_update(s: Seq<Auction>, i: int, x: Auction)
    requires
        0 <= i < s.len(),
    ensures
        auctions_escrow(s.update(i, x)) == auctions_escrow(s) - auction_held(s[i]) + auction_held(x),
    decreases s.len(),
{
    if i == s.len() - 1 {
        assert(s.update(i, x).drop_last() =~= s.drop_last());
    } else {
        lemma_auctions_escrow_update(s.drop_last(), i, x);
        assert(s.update(i, x).drop_last() =~= s.drop_last().update(i, x));
    }
}

proof fn lemma_auctions_escrow_push(s: Seq<Auction>, x: Auction)
    ensures
        auctions_escrow(s.push(x)) == auctions_escrow(s) + auction_held(x),
{
    assert(s.push(x).drop_last() =~= s);
}

/// The total of a sequence of payments.
pub open spec fn sum_paid(s: Seq<Payment>) -> int
    decreases s.len(),
{
    if s.len() == 0 {
        0
    } else {
        sum_paid(s.drop_last()) + s.last().amount
    }
}

/// Replacing one offer changes the escrow by the difference of what the two
/// hold.
pub proof fn lemma_offers_escrow_update(s: Seq<Offer>, i: int, x: Offer)
    requires
        0 <= i < s.len(),
    ensures
        offers_escrow(s.update(i, x)) == offers_escrow(s) - offer_held(s[i]) + offer_held(x),
    decreases s.len(),
{
    if i == s.len() - 1 {
        assert(s.update(i, x).drop_last() =~= s.drop_last());
    } else {
        lemma_offers_escrow_update(s.drop_last(), i, x);
        assert(s.update(i, x).drop_last() =~= s.drop_last().update(i, x));
    }
}

proof fn lemma_offers_escrow_push(s: Seq<Offer>, x: Offer)
    ensures
        offers_escrow(s.push(x)) == offers_escrow(s) + offer_held(x),
{
    assert(s.push(x).drop_last() =~= s);
}

proof fn lemma_sum_paid_push(s: Seq<Payment>, x: Payment)
    ensures
        sum_paid(s.push(x)) == sum_paid(s) + x.amount,
{
    assert(s.push(x).drop_last() =~= s);
}

/// The listing with id `id` is active in `s` (ids start at 1).
pub open spec fn active_in(s: Seq<Listing>, id: u64) -> bool {
    1 <= id <= s.len() && s[id - 1].status == ListingStatus::Active
}

/// Offer `o` after the listing `listing_id` left the market: turned down if
/// it was a pending offer on that listing.
pub open spec fn swept_for(o: Offer, listing_id: u64) -> Offer {
    if o.listing_id == listing_id && o.status == OfferStatus::Pending {
        Offer { status: OfferStatus::Rejected, ..o }
    } else {
        o
    }
}

/// Number of pending offers on listing `listing_id` among `s`.
pub open spec fn pending_on(s: Seq<Offer>, listing_id: u64) -> nat
    decreases s.len(),
{
    if s.len() == 0 {
        0
    } else {
        pending_on(s.drop_last(), listing_id) + if s.last().listing_id == listing_id && s.last().status
            == OfferStatus::Pending {
            1nat
        } else {
            0nat
        }
    }
}

/// Removing `id` from an index of distinct ids removes exactly that id.
proof fn lemma_removed_membership(old_s: Seq<u64>, new_s: Seq<u64>, id: u64)
    requires
        forall|i: int, j: int| 0 <= i < j < old_s.len() ==> #[trigger] old_s[i] != #[trigger] old_s[j],
        !old_s.contains(id) ==> new_s == old_s,
        old_s.contains(id) ==> exists|i: int|
            0 <= i < old_s.len() && old_s[i] == id && new_s == crate::index::swap_removed(old_s, i),
    ensures
        forall|x: u64| #[trigger] new_s.contains(x) <==> (old_s.contains(x) && x != id),
        new_s.len() <= old_s.len(),
{
    if old_s.contains(id) {
        let i = choose|i: int|
            0 <= i < old_s.len() && old_s[i] == id && new_s == crate::index::swap_removed(old_s, i);
        assert forall|x: u64| #[trigger] new_s.contains(x) <==> (old_s.contains(x) && x != id) by {
            if x != id {
                crate::index::lemma_swap_remove_membership(old_s, i, x);
            } else if new_s.contains(id) {
                let j = choose|j: int| 0 <= j < new_s.len() && new_s[j] == id;
                let last = old_s.len() - 1;
                if i == last {
                    assert(new_s[j] == old_s[j]);
                } else if j == i {
                    assert(new_s[j] == old_s[last]);
                } else {
                    assert(new_s[j] == old_s[j]);
                }
            }
        }
    }
}

/// Turns down every pending offer on listing `listing_id` and returns the
/// refunds owed, in order; what the offers hold in escrow drops by exactly
/// the refunds.
fn sweep_listing_offers(offers: &mut Vec<Offer>, listing_id: u64) -> (refunds: Vec<Payment>)
    ensures
        final(offers)@.len() == old(offers)@.len(),
        forall|i: int|
            0 <= i < old(offers)@.len() ==> #[trigger] final(offers)@[i] == swept_for(old(offers)@[i], listing_id),
        offers_escrow(final(offers)@) + sum_paid(refunds@) == offers_escrow(old(offers)@),
{
    let ghost before = offers@;
    let mut refunds: Vec<Payment> = Vec::new();
    let mut i: usize = 0;
    while i < offers.len()
        invariant
            offers@.len() == before.len(),
            i <= before.len(),
            forall|j: int| 0 <= j < i ==> #[trigger] offers@[j] == swept_for(before[j], listing_id),
            forall|j: int| i <= j < before.len() ==> #[trigger] offers@[j] == before[j],
            offers_escrow(offers@) + sum_paid(refunds@) == offers_escrow(before),
        decreases before.len() - i,
    {
        let o = offers[i];
        if o.listing_id == listing_id && o.status == OfferStatus::Pending {
            let ghost prev = offers@;
            let ghost prev_refunds = refunds@;
            let p = Payment { to: o.offerer, amount: o.amount };
            refunds.push(p);
            offers.set(i, Offer { status: OfferStatus::Rejected, ..o });
            proof {
                lemma_offers_escrow_update(prev, i as int, Offer { status: OfferStatus::Rejected, ..o });
                lemma_sum_paid_push(prev_refunds, p);
            }
        }
        i = i + 1;
    }
    refunds
}

/// Takes listing `listing_id`, which was active in `before` and no longer
/// is in `listings`, out of the active index, turns down its pending offers
/// and releases its token from custody.
fn retire_listing(
    listings: &Vec<Listing>,
    auctions: &Vec<Auction>,
    active: &mut PagedIndex,
    offers: &mut Vec<Offer>,
    custody: &mut EscrowLedger,
    listing_id: u64,
    Ghost(before): Ghost<Seq<Listing>>,
) -> (refunds: Vec<Payment>)
    requires
        1 <= listing_id <= before.len(),
        listings@.len() == before.len(),
        listings@ == before.update(listing_id - 1, listings@[listing_id - 1]),
        before[listing_id - 1].status == ListingStatus::Active,
        listings@[listing_id - 1].status != ListingStatus::Active,
        listings@[listing_id - 1].collection == before[listing_id - 1].collection,
        listings@[listing_id - 1].token_id == before[listing_id - 1].token_id,
        forall|x: u64| #[trigger] old(active).view().contains(x) <==> active_in(before, x),
        custody_holds(before, auctions@, old(custody).view()),
        ids_in_order(before, auctions@),
    ensures
        custody_holds(listings@, auctions@, final(custody).view()),
        released(
            old(custody).view(),
            final(custody).view(),
            listings@[listing_id - 1].collection,
            listings@[listing_id - 1].token_id,
        ),
        forall|x: u64| #[trigger] final(active).view().contains(x) <==> active_in(listings@, x),
        forall|x: u64| #[trigger] final(active).view().contains(x) <==> (old(active).view().contains(x) && x
            != listing_id),
        final(active).view().len() <= old(active).view().len(),
        final(offers)@.len() == old(offers)@.len(),
        forall|i: int|
            0 <= i < old(offers)@.len() ==> #[trigger] final(offers)@[i] == swept_for(old(offers)@[i], listing_id),
        offers_escrow(final(offers)@) + sum_paid(refunds@) == offers_escrow(old(offers)@),
{
    // Reading the length brings in the index's bounds and distinct ids.
    let _ = active.len();
    let ghost old_active = active.view();
    active.remove(listing_id);
    proof {
        lemma_removed_membership(old_active, active.view(), listing_id);
        assert forall|x: u64| #[trigger] active.view().contains(x) <==> active_in(listings@, x) by {
            if x != listing_id && 1 <= x <= before.len() {
                assert(listings@[x - 1] == before[x - 1]);
            }
        }
    }
    // The listing count fits in `usize`, and so does the index.
    let n: usize = listings.len();
    let idx: usize = (listing_id - 1) as usize;
    let collection = listings[idx].collection;
    let token_id = listings[idx].token_id;
    let ghost v0 = custody.view();
    let _ = custody.release(collection, token_id);
    proof {
        assert(idx < n);
        lemma_close_listing(
            before,
            auctions@,
            v0,
            custody.view(),
            listing_id - 1,
            listings@[listing_id - 1],
        );
    }
    sweep_listing_offers(offers, listing_id)
}

/// The two states hold the same listings, index and offers.
pub open spec fn same_sales(a: Market, b: Market) -> bool {
    a.listings() == b.listings() && a.active() == b.active() && a.offers() == b.offers()
}

/// The two states hold the same auctions and bid histories.
pub open spec fn same_auctions(a: Market, b: Market) -> bool {
    a.auctions() == b.auctions() && a.histories() == b.histories()
}

/// The two states are the same as far as the specifications see.
pub open spec fn same_state(a: Market, b: Market) -> bool {
    same_sales(a, b) && same_auctions(a, b) && a.escrowed() == b.escrowed()
}

/// `after` is `before` once listing `listing_id` became `l` and left the
/// market: it is gone from the active index, its pending offers were turned
/// down, and the escrow dropped by exactly the refunds paid.
pub open spec fn retired(before: Market, after: Market, listing_id: u64, l: Listing, refunds: Seq<Payment>) -> bool {
    &&& after.listings() == before.listings().update(listing_id - 1, l)
    &&& same_auctions(before, after)
    &&& released(before.escrowed(), after.escrowed(), l.collection, l.token_id)
    &&& forall|x: u64| #[trigger] after.active().contains(x) <==> (before.active().contains(x) && x != listing_id)
    &&& after.offers().len() == before.offers().len()
    &&& forall|i: int|
        0 <= i < before.offers().len() ==> #[trigger] after.offers()[i] == swept_for(before.offers()[i], listing_id)
    &&& after.escrow() + sum_paid(refunds) == before.escrow()
}

/// What a sale in the market produces: the purchase outcome and the
/// refunds of the offers turned down because the listing left the market.
#[derive(Debug)]
pub struct MarketSale {
    pub outcome: PurchaseOutcome,
    pub refunds: Vec<Payment>,
}

/// Counts the pending offers on listing `listing_id`.
fn count_pending_on(offers: &Vec<Offer>, listing_id: u64) -> (c: u64)
    ensures
        c == pending_on(offers@, listing_id),
{
    let mut c: u64 = 0;
    let mut i: usize = 0;
    while i < offers.len()
        invariant
            i <= offers@.len(),
            c == pending_on(offers@.take(i as int), listing_id),
            c <= i,
        decreases offers@.len() - i,
    {
        assert(offers@.take(i as int + 1).drop_last() =~= offers@.take(i as int));
        if offers[i].listing_id == listing_id && offers[i].status == OfferStatus::Pending {
            c = c + 1;
        }
        i = i + 1;
    }
    assert(offers@.take(i as int) =~= offers@);
    c
}

/// The auction [`crate::creation::open_auction`] opens from these
/// arguments, with the configured increment, extension rules, fee and
/// history capacity.
pub open spec fn opened_auction(
    auction_id: u64,
    creator: AccountId,
    token: AccountId,
    collection: AccountId,
    token_id: u64,
    reserve_price: i128,
    duration: u64,
    recipients: Vec<Recipient>,
    config: ProtocolConfig,
    now: u64,
) -> Auction {
    Auction {
        auction_id,
        creator,
        token,
        collection,
        token_id,
        reserve_price,
        highest_bid: 0,
        highest_bidder: None,
        end_time: (now + duration) as u64,
        status: AuctionStatus::Active,
        recipients,
        min_increment: config.min_bid_increment,
        extension_window: config.extension_window,
        extension_trigger: config.extension_trigger,
        protocol_fee_bps: config.protocol_fee_bps,
        bid_history_cap: config.bid_history_cap,
        max_extensions: config.max_extensions,
        extension_count: 0,
        original_end_time: (now + duration) as u64,
    }
}

/// Why accepting offer `o` on listing `l` is refused, if it is, once the
/// circuit breakers and the lock have let the call through (the order of
/// the checks of [`crate::offer_sale::acceptance_done`]).
pub open spec fn acceptance_verdict(
    l: Listing,
    o: Offer,
    caller: AccountId,
    now: u64,
    registry: Seq<crate::whitelist::TokenEntry>,
    contract: AccountId,
    treasury_set: bool,
    royalty: Option<RoyaltyInfo>,
) -> Result<(), MarketplaceError> {
    let t = offer_transition_verdict(OfferAction::Accept, o.status, o.offerer, l.artist, caller, o.expires_at, now);
    if l.status != ListingStatus::Active {
        Err(MarketplaceError::ListingNotActive)
    } else if t is Err {
        Err(t->Err_0)
    } else if payment_token_verdict(registry, o.token, l.collection, contract) is Err {
        Err(MarketplaceError::TokenNotWhitelisted)
    } else if o.amount <= 0 {
        Err(MarketplaceError::InvalidPrice)
    } else if royalty_invalid(royalty) {
        Err(MarketplaceError::InvalidRoyalty)
    } else if settlement_overflows(o.amount as int, l.artist, l.recipients@, l.protocol_fee_bps, treasury_set, royalty) {
        Err(MarketplaceError::ArithmeticOverflow)
    } else {
        Ok(())
    }
}

/// Offer `o` once the listings `before` became `after`: turned down if it
/// was pending on a listing whose status changed.
pub open spec fn swept_by(o: Offer, before: Seq<Listing>, after: Seq<Listing>) -> Offer {
    if o.status == OfferStatus::Pending && 1 <= o.listing_id <= before.len() && o.listing_id <= after.len()
        && before[o.listing_id - 1].status != after[o.listing_id - 1].status {
        Offer { status: OfferStatus::Rejected, ..o }
    } else {
        o
    }
}

/// The custody records a revocation sweep of `artist` with batch bound
/// `max` hands back, for the first `n` listings of `s`, in order: one per
/// cancelled listing.
pub open spec fn sweep_records(s: Seq<Listing>, artist: AccountId, max: nat, n: nat) -> Seq<EscrowRecord>
    decreases n,
{
    if n == 0 {
        Seq::empty()
    } else {
        let prev = sweep_records(s, artist, max, (n - 1) as nat);
        if active_of(s[n - 1], artist) && count_active(s.take(n - 1), artist) < max {
            prev.push(listing_record(s[n - 1]))
        } else {
            prev
        }
    }
}

/// The total of two runs of payments is the sum of their totals.
pub proof fn lemma_sum_paid_append(a: Seq<Payment>, b: Seq<Payment>)
    ensures
        sum_paid(a + b) == sum_paid(a) + sum_paid(b),
    decreases b.len(),
{
    if b.len() > 0 {
        lemma_sum_paid_append(a, b.drop_last());
        assert((a + b).drop_last() =~= a + b.drop_last());
    } else {
        assert(a + b =~= a);
    }
}

/// What a revocation sweep did: how many active listings of the artist
/// remain, the refunds of the offers it turned down, and the custody
/// records of the tokens to give back to the artist.
#[derive(Debug)]
pub struct RevocationSweep {
    pub remaining: u64,
    pub refunds: Vec<Payment>,
    pub returned: Vec<EscrowRecord>,
}

/// The whole marketplace state.
pub struct Market {
    listings: Vec<Listing>,
    active: PagedIndex,
    offers: Vec<Offer>,
    auctions: Vec<Auction>,
    histories: Vec<BidHistory>,
    custody: EscrowLedger,
}

impl Market {
    #[verifier::type_invariant]
    spec fn inv(self) -> bool {
        &&& self.listings@.len() < u32::MAX
        &&& self.active.view().len() <= self.listings@.len()
        &&& forall|i: int| 0 <= i < self.listings@.len() ==> #[trigger] self.listings@[i].listing_id == i + 1
        &&& forall|i: int| 0 <= i < self.listings@.len() ==> listing_wf(#[trigger] self.listings@[i])
        &&& forall|id: u64| #[trigger] self.active.view().contains(id) <==> active_in(self.listings@, id)
        &&& forall|i: int| 0 <= i < self.offers@.len() ==> #[trigger] self.offers@[i].offer_id == i + 1
        &&& forall|i: int|
            0 <= i < self.offers@.len() ==> 1 <= #[trigger] self.offers@[i].listing_id <= self.listings@.len()
        &&& self.histories@.len() == self.auctions@.len()
        &&& forall|i: int| 0 <= i < self.auctions@.len() ==> #[trigger] self.auctions@[i].auction_id == i + 1
        &&& forall|i: int| 0 <= i < self.auctions@.len() ==> auction_wf(#[trigger] self.auctions@[i])
        &&& custody_holds(self.listings@, self.auctions@, self.custody.view())
    }

    /// The listings; listing `id` is at index `id - 1`.
    pub closed spec fn listings(self) -> Seq<Listing> {
        self.listings@
    }

    /// The index of active listings.
    pub closed spec fn active(self) -> Seq<u64> {
        self.active.view()
    }

    /// The offers; offer `id` is at index `id - 1`.
    pub closed spec fn offers(self) -> Seq<Offer> {
        self.offers@
    }

    /// The auctions; auction `id` is at index `id - 1`.
    pub closed spec fn auctions(self) -> Seq<Auction> {
        self.auctions@
    }

    /// The bid histories, one per auction, in the same order.
    pub closed spec fn histories(self) -> Seq<BidHistory> {
        self.histories@
    }

    /// The tokens in custody, oldest first.
    pub closed spec fn escrowed(self) -> Seq<EscrowRecord> {
        self.custody.view()
    }

    /// The custody holds exactly the tokens of the active listings and
    /// auctions, each once.
    pub open spec fn custody_matches(self) -> bool {
        custody_holds(self.listings(), self.auctions(), self.escrowed())
    }

    /// What the marketplace holds in escrow: the amounts of pending offers
    /// and the highest bids of active auctions.
    pub open spec fn escrow(self) -> int {
        offers_escrow(self.offers()) + auctions_escrow(self.auctions())
    }

    /// An empty marketplace.
    pub fn new() -> (m: Market)
        ensures
            m.listings() == Seq::<Listing>::empty(),
            m.active() == Seq::<u64>::empty(),
            m.offers() == Seq::<Offer>::empty(),
            m.auctions() == Seq::<Auction>::empty(),
            m.histories() == Seq::<BidHistory>::empty(),
            m.escrowed() == Seq::<EscrowRecord>::empty(),
    {
        Market {
            listings: Vec::new(),
            active: PagedIndex::new(),
            offers: Vec::new(),
            auctions: Vec::new(),
            histories: Vec::new(),
            custody: EscrowLedger::new(),
        }
    }

    /// The active index holds exactly the ids of the active listings.
    pub open spec fn index_matches(self) -> bool {
        forall|id: u64| #[trigger] self.active().contains(id) <==> active_in(self.listings(), id)
    }

    /// The tokens in marketplace custody. Whatever operations led to this
    /// state, they are exactly the tokens of the active listings and
    /// auctions, each held once.
    pub fn custody(&self) -> (r: &EscrowLedger)
        ensures
            r.view() == self.escrowed(),
            self.custody_matches(),
    {
        proof {
            use_type_invariant(self);
        }
        &self.custody
    }

    /// The index of active listings. Whatever operations led to this state,
    /// it holds exactly the ids of the active listings.
    pub fn active_index(&self) -> (r: &PagedIndex)
        ensures
            r.view() == self.active(),
            self.index_matches(),
    {
        proof {
            use_type_invariant(self);
        }
        &self.active
    }

    /// Opens the next listing from `req` (see
    /// [`crate::creation::create_listing`]), takes its token into custody
    /// (see [`EscrowLedger::escrow`]; `current_owner` is the owner the
    /// collection reports for the token) and adds it to the active index. A
    /// refused request changes nothing.
    pub fn create_listing(
        &mut self,
        artist: AccountId,
        current_owner: AccountId,
        req: BatchCreateListingInput,
        standard: CollectionStandard,
        rules: &ListingRules,
        pause: &PauseState,
        revoked: &RevokedArtists,
        registry: &TokenRegistry,
        contract: AccountId,
        ledger: u32,
    ) -> (r: Result<u64, MarketplaceError>)
        requires
            old(self).listings().len() + 1 < u32::MAX,
        ensures
            ({
                let id = (old(self).listings().len() + 1) as u64;
                match create_listing_result(
                    id,
                    artist,
                    req,
                    standard,
                    *rules,
                    *pause,
                    revoked.view(),
                    registry.view(),
                    contract,
                    ledger,
                ) {
                    Err(e) => r == Err::<u64, MarketplaceError>(e) && *final(self) == *old(self),
                    Ok(l) => if current_owner != artist {
                        r == Err::<u64, MarketplaceError>(MarketplaceError::NotTokenOwner) && same_state(
                            *old(self),
                            *final(self),
                        )
                    } else if record_of(old(self).escrowed(), l.collection, l.token_id) is Some {
                        r == Err::<u64, MarketplaceError>(MarketplaceError::TokenAlreadyEscrowed) && same_state(
                            *old(self),
                            *final(self),
                        )
                    } else {
                        &&& r == Ok::<u64, MarketplaceError>(id)
                        &&& final(self).listings() == old(self).listings().push(l)
                        &&& final(self).active() == old(self).active().push(id)
                        &&& final(self).offers() == old(self).offers()
                        &&& same_auctions(*old(self), *final(self))
                        &&& final(self).escrowed() == old(self).escrowed().push(listing_record(l))
                    },
                }
            }),
    {
        proof {
            use_type_invariant(&*self);
        }
        let id = (self.listings.len() + 1) as u64;
        let l = crate::creation::create_listing(
            id,
            artist,
            req,
            standard,
            rules,
            pause,
            revoked,
            registry,
            contract,
            ledger,
        )?;
        let mut taken = Market::new();
        std::mem::swap(&mut taken, self);
        proof {
            use_type_invariant(&taken);
        }
        let Market { mut listings, mut active, offers, auctions, histories, mut custody } = taken;
        let ghost old_listings = listings@;
        let ghost old_active = active.view();
        let ghost old_custody = custody.view();
        if let Err(e) = custody.escrow(l.collection, l.token_id, current_owner, artist, EscrowPurpose::Listing(id)) {
            *self = Market { listings, active, offers, auctions, histories, custody };
            return Err(e);
        }
        proof {
            assert(!old_active.contains(id));
            assert(custody.view() == old_custody.push(listing_record(l)));
            lemma_open_listing(old_listings, auctions@, old_custody, l);
        }
        listings.push(l);
        active.append(id);
        proof {
            assert forall|x: u64| #[trigger] active.view().contains(x) <==> active_in(listings@, x) by {
                if x == id {
                    assert(active.view()[active.view().len() - 1] == id);
                } else {
                    if active.view().contains(x) {
                        let k = choose|k: int| 0 <= k < active.view().len() && active.view()[k] == x;
                        assert(old_active[k] == x);
                    }
                    if old_active.contains(x) {
                        let k = choose|k: int| 0 <= k < old_active.len() && old_active[k] == x;
                        assert(active.view()[k] == x);
                    }
                }
            }
        }
        *self = Market { listings, active, offers, auctions, histories, custody };
        Ok(id)
    }

    /// `buyer` buys listing `listing_id` at `now`: it must exist
    /// (`ListingNotFound`), then as [`crate::purchase::buy_artwork`]. When the
    /// listing is sold, or closed because it had expired, it leaves the
    /// active index and its pending offers are turned down and refunded, and
    /// the listing's settlement lock stays held until the caller has made the
    /// payouts. A refused purchase changes nothing.
    pub fn buy(
        &mut self,
        listing_id: u64,
        buyer: AccountId,
        now: u64,
        pause: &PauseState,
        locks: &mut ListingLocks,
        registry: &TokenRegistry,
        contract: AccountId,
        treasury_set: bool,
        royalty: Option<RoyaltyInfo>,
    ) -> (r: Result<MarketSale, MarketplaceError>)
        ensures
            r is Err ==> final(locks).view() == old(locks).view(),
            r is Ok ==> final(locks).view() == old(locks).view().insert(listing_id),
            !(1 <= listing_id <= old(self).listings().len()) ==> r == Err::<MarketSale, MarketplaceError>(
                MarketplaceError::ListingNotFound,
            ) && *final(self) == *old(self),
            r is Err ==> same_state(*old(self), *final(self)),
            1 <= listing_id <= old(self).listings().len() ==> {
                let l = old(self).listings()[listing_id - 1];
                let after = final(self).listings()[listing_id - 1];
                let ro = match r {
                    Ok(sale) => Ok::<PurchaseOutcome, MarketplaceError>(sale.outcome),
                    Err(e) => Err::<PurchaseOutcome, MarketplaceError>(e),
                };
                &&& paused_for(*pause, Some(l.collection), "buy_artwork"@) ==> r == Err::<
                    MarketSale,
                    MarketplaceError,
                >(MarketplaceError::ContractPaused)
                &&& !paused_for(*pause, Some(l.collection), "buy_artwork"@) && old(locks).view().contains(
                    listing_id,
                ) ==> r == Err::<MarketSale, MarketplaceError>(MarketplaceError::ReentrancyGuard)
                &&& !paused_for(*pause, Some(l.collection), "buy_artwork"@) && !old(locks).view().contains(
                    listing_id,
                ) ==> purchase_done(l, after, buyer, now, registry.view(), contract, treasury_set, royalty, ro)
                &&& r is Ok ==> retired(*old(self), *final(self), listing_id, after, r->Ok_0.refunds@)
            },
    {
        proof {
            use_type_invariant(&*self);
        }
        if listing_id == 0 || listing_id > self.listings.len() as u64 {
            return Err(MarketplaceError::ListingNotFound);
        }
        let idx = (listing_id - 1) as usize;
        let mut taken = Market::new();
        std::mem::swap(&mut taken, self);
        proof {
            use_type_invariant(&taken);
        }
        let Market { mut listings, mut active, mut offers, auctions, histories, mut custody } = taken;
        let ghost before = listings@;
        let ghost old_offers = offers@;
        proof {
            assert(listings@[idx as int].listing_id == listing_id);
            assert(listing_wf(listings@[idx as int]));
        }
        let r = buy_artwork(
            &mut listings[idx],
            buyer,
            now,
            pause,
            locks,
            registry,
            contract,
            treasury_set,
            royalty,
        );
        match r {
            Err(e) => {
                proof {
                    assert(listings@ =~= before);
                }
                *self = Market { listings, active, offers, auctions, histories, custody };
                Err(e)
            },
            Ok(outcome) => {
                let refunds = retire_listing(&listings, &auctions, &mut active, &mut offers, &mut custody, listing_id, Ghost(before));
                *self = Market { listings, active, offers, auctions, histories, custody };
                Ok(MarketSale { outcome, refunds })
            },
        }
    }

    /// `offerer` offers `amount` of `token` for listing `listing_id` (at
    /// ledger `ledger`): the listing must exist (`ListingNotFound`), then as
    /// [`crate::offer_sale::make_offer`] with the listing's pending offers
    /// counted. The new offer gets the next offer id and its amount enters
    /// escrow. A refused offer changes nothing.
    pub fn make_offer(
        &mut self,
        listing_id: u64,
        offerer: AccountId,
        amount: i128,
        token: AccountId,
        expires_at: Option<u64>,
        ledger: u32,
        pause: &PauseState,
        registry: &TokenRegistry,
        contract: AccountId,
    ) -> (r: Result<u64, MarketplaceError>)
        requires
            old(self).offers().len() + 1 < u64::MAX,
        ensures
            !(1 <= listing_id <= old(self).listings().len()) ==> r == Err::<u64, MarketplaceError>(
                MarketplaceError::ListingNotFound,
            ) && *final(self) == *old(self),
            1 <= listing_id <= old(self).listings().len() ==> {
                let l = old(self).listings()[listing_id - 1];
                let count = pending_on(old(self).offers(), listing_id);
                let pending = if count < MAX_OFFERS_PER_LISTING { count } else { MAX_OFFERS_PER_LISTING as nat };
                let v = new_offer_verdict(l.status, l.artist, offerer, amount, pending as u32);
                let t = payment_token_verdict(registry.view(), token, l.collection, contract);
                let id = (old(self).offers().len() + 1) as u64;
                &&& paused_for(*pause, Some(l.collection), "make_offer"@) ==> r == Err::<u64, MarketplaceError>(
                    MarketplaceError::ContractPaused,
                )
                &&& !paused_for(*pause, Some(l.collection), "make_offer"@) && v is Err ==> r == Err::<
                    u64,
                    MarketplaceError,
                >(v->Err_0)
                &&& !paused_for(*pause, Some(l.collection), "make_offer"@) && v is Ok && t is Err ==> r
                    == Err::<u64, MarketplaceError>(t->Err_0)
                &&& r is Err ==> same_state(*old(self), *final(self))
                &&& r is Ok ==> {
                    &&& r == Ok::<u64, MarketplaceError>(id)
                    &&& final(self).listings() == old(self).listings()
                    &&& final(self).active() == old(self).active()
                    &&& same_auctions(*old(self), *final(self))
                    &&& final(self).offers() == old(self).offers().push(
                        Offer {
                            offer_id: id,
                            listing_id,
                            offerer,
                            amount,
                            token,
                            status: OfferStatus::Pending,
                            created_at: ledger,
                            expires_at,
                        },
                    )
                    &&& final(self).escrow() == old(self).escrow() + amount
                    &&& final(self).escrowed() == old(self).escrowed()
                }
            },
    {
        proof {
            use_type_invariant(&*self);
        }
        if listing_id == 0 || listing_id > self.listings.len() as u64 {
            return Err(MarketplaceError::ListingNotFound);
        }
        let idx = (listing_id - 1) as usize;
        let count = count_pending_on(&self.offers, listing_id);
        let pending: u32 = if count < MAX_OFFERS_PER_LISTING as u64 {
            count as u32
        } else {
            MAX_OFFERS_PER_LISTING
        };
        let id = self.offers.len() as u64 + 1;
        let o = crate::offer_sale::make_offer(
            &self.listings[idx],
            id,
            offerer,
            amount,
            token,
            expires_at,
            pending,
            ledger,
            pause,
            registry,
            contract,
        )?;
        let mut taken = Market::new();
        std::mem::swap(&mut taken, self);
        proof {
            use_type_invariant(&taken);
        }
        let Market { listings, active, mut offers, auctions, histories, custody } = taken;
        let ghost before = offers@;
        offers.push(o);
        proof {
            lemma_offers_escrow_push(before, o);
        }
        *self = Market { listings, active, offers, auctions, histories, custody };
        Ok(id)
    }

    /// Ends offer `offer_id` without a sale (`Reject`, `Withdraw` or
    /// `Reclaim`): the offer must exist (`OfferNotFound`), then as
    /// [`crate::offer_sale::close_offer`] with its listing's artist. The
    /// refund returned is exactly what leaves escrow. A refused call changes
    /// nothing.
    pub fn close_offer(&mut self, offer_id: u64, action: OfferAction, caller: AccountId, now: u64) -> (r: Result<
        Payment,
        MarketplaceError,
    >)
        requires
            action != OfferAction::Accept,
        ensures
            !(1 <= offer_id <= old(self).offers().len()) ==> r == Err::<Payment, MarketplaceError>(
                MarketplaceError::OfferNotFound,
            ) && *final(self) == *old(self),
            1 <= offer_id <= old(self).offers().len() ==> {
                let o = old(self).offers()[offer_id - 1];
                let artist = old(self).listings()[o.listing_id - 1].artist;
                let v = offer_transition_verdict(action, o.status, o.offerer, artist, caller, o.expires_at, now);
                &&& v is Err ==> r == Err::<Payment, MarketplaceError>(v->Err_0) && same_state(
                    *old(self),
                    *final(self),
                )
                &&& v is Ok ==> {
                    &&& r == Ok::<Payment, MarketplaceError>(Payment { to: o.offerer, amount: o.amount })
                    &&& final(self).listings() == old(self).listings()
                    &&& final(self).active() == old(self).active()
                    &&& same_auctions(*old(self), *final(self))
                    &&& final(self).offers() == old(self).offers().update(
                        offer_id - 1,
                        Offer { status: v->Ok_0, ..o },
                    )
                    &&& final(self).escrow() + o.amount == old(self).escrow()
                    &&& final(self).escrowed() == old(self).escrowed()
                }
            },
    {
        proof {
            use_type_invariant(&*self);
        }
        if offer_id == 0 || offer_id > self.offers.len() as u64 {
            return Err(MarketplaceError::OfferNotFound);
        }
        let i = (offer_id - 1) as usize;
        let artist = self.listings[(self.offers[i].listing_id - 1) as usize].artist;
        let mut taken = Market::new();
        std::mem::swap(&mut taken, self);
        proof {
            use_type_invariant(&taken);
        }
        let Market { listings, active, mut offers, auctions, histories, custody } = taken;
        let ghost before = offers@;
        let mut o = offers[i];
        let r = crate::offer_sale::close_offer(&mut o, action, artist, caller, now);
        if r.is_ok() {
            offers.set(i, o);
            proof {
                lemma_offers_escrow_update(before, i as int, o);
            }
        }
        *self = Market { listings, active, offers, auctions, histories, custody };
        r
    }

    /// The artist (`caller`) cancels listing `listing_id`: it must exist
    /// (`ListingNotFound`), then as [`crate::custody::check_cancel_listing`].
    /// The listing becomes `Cancelled` and leaves the active index, and its
    /// pending offers are turned down; the refunds returned are exactly what
    /// leaves escrow. A refused cancellation changes nothing.
    pub fn cancel_listing(&mut self, listing_id: u64, caller: AccountId) -> (r: Result<
        Vec<Payment>,
        MarketplaceError,
    >)
        ensures
            !(1 <= listing_id <= old(self).listings().len()) ==> r == Err::<Vec<Payment>, MarketplaceError>(
                MarketplaceError::ListingNotFound,
            ) && *final(self) == *old(self),
            1 <= listing_id <= old(self).listings().len() ==> {
                let l = old(self).listings()[listing_id - 1];
                let v = crate::custody::cancel_listing_verdict(l.status, l.artist, caller);
                &&& v is Err ==> r == Err::<Vec<Payment>, MarketplaceError>(v->Err_0) && *final(self)
                    == *old(self)
                &&& v is Ok ==> r is Ok && retired(
                    *old(self),
                    *final(self),
                    listing_id,
                    Listing { status: ListingStatus::Cancelled, ..l },
                    r->Ok_0@,
                )
            },
    {
        proof {
            use_type_invariant(&*self);
        }
        if listing_id == 0 || listing_id > self.listings.len() as u64 {
            return Err(MarketplaceError::ListingNotFound);
        }
        let idx = (listing_id - 1) as usize;
        crate::custody::check_cancel_listing(&self.listings[idx], caller)?;
        let mut taken = Market::new();
        std::mem::swap(&mut taken, self);
        proof {
            use_type_invariant(&taken);
        }
        let Market { mut listings, mut active, mut offers, auctions, histories, mut custody } = taken;
        let ghost before = listings@;
        listings[idx].status = ListingStatus::Cancelled;
        let refunds = retire_listing(&listings, &auctions, &mut active, &mut offers, &mut custody, listing_id, Ghost(before));
        *self = Market { listings, active, offers, auctions, histories, custody };
        Ok(refunds)
    }

    /// Closes listing `listing_id` once it has expired (anyone may call): it
    /// must exist (`ListingNotFound`), then as
    /// [`crate::listing::check_expire_listing`]. The listing becomes
    /// `Cancelled` and leaves the active index, and its pending offers are
    /// turned down with their refunds. A refused call changes nothing.
    pub fn expire_listing(&mut self, listing_id: u64, now: u64) -> (r: Result<Vec<Payment>, MarketplaceError>)
        ensures
            !(1 <= listing_id <= old(self).listings().len()) ==> r == Err::<Vec<Payment>, MarketplaceError>(
                MarketplaceError::ListingNotFound,
            ) && *final(self) == *old(self),
            1 <= listing_id <= old(self).listings().len() ==> {
                let l = old(self).listings()[listing_id - 1];
                let v = crate::listing::expire_verdict(l.status, l.expires_at, now);
                &&& v is Err ==> r == Err::<Vec<Payment>, MarketplaceError>(v->Err_0) && *final(self)
                    == *old(self)
                &&& v is Ok ==> r is Ok && retired(
                    *old(self),
                    *final(self),
                    listing_id,
                    Listing { status: ListingStatus::Cancelled, ..l },
                    r->Ok_0@,
                )
            },
    {
        proof {
            use_type_invariant(&*self);
        }
        if listing_id == 0 || listing_id > self.listings.len() as u64 {
            return Err(MarketplaceError::ListingNotFound);
        }
        let idx = (listing_id - 1) as usize;
        crate::listing::check_expire_listing(&self.listings[idx], now)?;
        let mut taken = Market::new();
        std::mem::swap(&mut taken, self);
        proof {
            use_type_invariant(&taken);
        }
        let Market { mut listings, mut active, mut offers, auctions, histories, mut custody } = taken;
        let ghost before = listings@;
        listings[idx].status = ListingStatus::Cancelled;
        let refunds = retire_listing(&listings, &auctions, &mut active, &mut offers, &mut custody, listing_id, Ghost(before));
        *self = Market { listings, active, offers, auctions, histories, custody };
        Ok(refunds)
    }
    /// Opens the next auction (see [`crate::creation::open_auction`]) with
    /// an empty bid history of the configured capacity. Nothing enters
    /// escrow. A refused request changes nothing.
    pub fn create_auction(
        &mut self,
        creator: AccountId,
        current_owner: AccountId,
        token: AccountId,
        collection: AccountId,
        token_id: u64,
        reserve_price: i128,
        duration: u64,
        recipients: Vec<Recipient>,
        config: &ProtocolConfig,
        pause: &PauseState,
        revoked: &RevokedArtists,
        registry: &TokenRegistry,
        contract: AccountId,
        now: u64,
    ) -> (r: Result<u64, MarketplaceError>)
        requires
            old(self).auctions().len() + 1 < u64::MAX,
            now + duration <= u64::MAX,
            config.wf(),
        ensures
            ({
                let id = (old(self).auctions().len() + 1) as u64;
                let g = gate_verdict(
                    *pause,
                    "create_auction"@,
                    revoked.view(),
                    registry.view(),
                    contract,
                    creator,
                    token,
                    collection,
                );
                let v = create_auction_verdict(
                    reserve_price,
                    duration,
                    config.min_bid_increment,
                    recipients@,
                    config.protocol_fee_bps,
                );
                &&& g is Err ==> r == Err::<u64, MarketplaceError>(g->Err_0)
                &&& g is Ok && v is Err ==> r == Err::<u64, MarketplaceError>(v->Err_0)
                &&& r is Err ==> same_state(*old(self), *final(self))
                &&& g is Ok && v is Ok && current_owner != creator ==> r == Err::<u64, MarketplaceError>(
                    MarketplaceError::NotTokenOwner,
                )
                &&& g is Ok && v is Ok && current_owner == creator && record_of(
                    old(self).escrowed(),
                    collection,
                    token_id,
                ) is Some ==> r == Err::<u64, MarketplaceError>(MarketplaceError::TokenAlreadyEscrowed)
                &&& g is Ok && v is Ok && current_owner == creator && record_of(
                    old(self).escrowed(),
                    collection,
                    token_id,
                ) is None ==> {
                    &&& r == Ok::<u64, MarketplaceError>(id)
                    &&& same_sales(*old(self), *final(self))
                    &&& final(self).auctions() == old(self).auctions().push(
                        opened_auction(
                            id,
                            creator,
                            token,
                            collection,
                            token_id,
                            reserve_price,
                            duration,
                            recipients,
                            *config,
                            now,
                        ),
                    )
                    &&& final(self).histories().drop_last() == old(self).histories()
                    &&& final(self).histories().last().capacity() == config.bid_history_cap
                    &&& final(self).histories().last().view() == Seq::<BidRecord>::empty()
                    &&& final(self).escrow() == old(self).escrow()
                    &&& final(self).escrowed() == old(self).escrowed().push(
                        auction_record(final(self).auctions().last()),
                    )
                }
            }),
    {
        proof {
            use_type_invariant(&*self);
        }
        let id = self.auctions.len() as u64 + 1;
        let a = crate::creation::open_auction(
            id,
            creator,
            token,
            collection,
            token_id,
            reserve_price,
            duration,
            recipients,
            config,
            pause,
            revoked,
            registry,
            contract,
            now,
        )?;
        let h = BidHistory::new(config.bid_history_cap);
        let mut taken = Market::new();
        std::mem::swap(&mut taken, self);
        proof {
            use_type_invariant(&taken);
        }
        let Market { listings, active, offers, mut auctions, mut histories, mut custody } = taken;
        let ghost before = auctions@;
        let ghost before_h = histories@;
        let ghost old_custody = custody.view();
        if let Err(e) = custody.escrow(collection, token_id, current_owner, creator, EscrowPurpose::Auction(id)) {
            *self = Market { listings, active, offers, auctions, histories, custody };
            return Err(e);
        }
        proof {
            lemma_open_auction(listings@, before, old_custody, a);
        }
        auctions.push(a);
        histories.push(h);
        proof {
            lemma_auctions_escrow_push(before, a);
            assert(histories@.drop_last() =~= before_h);
        }
        *self = Market { listings, active, offers, auctions, histories, custody };
        Ok(id)
    }

    /// `bidder` bids `amount` on auction `auction_id` at `now` (ledger
    /// `ledger`): the auction must exist (`AuctionNotFound`), then as
    /// [`crate::closing::bid`] with its bid history. The new bid enters escrow
    /// and the refund to the outbid bidder leaves it. A refused bid changes
    /// nothing.
    pub fn place_bid(
        &mut self,
        auction_id: u64,
        bidder: AccountId,
        amount: i128,
        now: u64,
        ledger: u32,
        max_total_duration: u64,
        pause: &PauseState,
    ) -> (r: Result<BidOutcome, MarketplaceError>)
        ensures
            !(1 <= auction_id <= old(self).auctions().len()) ==> r == Err::<BidOutcome, MarketplaceError>(
                MarketplaceError::AuctionNotFound,
            ) && *final(self) == *old(self),
            r is Err ==> same_state(*old(self), *final(self)),
            1 <= auction_id <= old(self).auctions().len() ==> {
                let i = auction_id - 1;
                let a = old(self).auctions()[i];
                let h = old(self).histories()[i];
                let v = bid_verdict(a, bidder, amount, now);
                &&& paused_for(*pause, Some(a.collection), "place_bid"@) ==> r == Err::<
                    BidOutcome,
                    MarketplaceError,
                >(MarketplaceError::ContractPaused)
                &&& !paused_for(*pause, Some(a.collection), "place_bid"@) ==> (r is Err <==> v is Err)
                &&& !paused_for(*pause, Some(a.collection), "place_bid"@) && v is Err ==> r == Err::<
                    BidOutcome,
                    MarketplaceError,
                >(v->Err_0)
                &&& r matches Ok(out) ==> {
                    &&& out.refund == refund_of(a)
                    &&& same_sales(*old(self), *final(self))
                    &&& final(self).auctions() == old(self).auctions().update(
                        i,
                        after_bid(a, bidder, amount, now, max_total_duration),
                    )
                    &&& final(self).histories().len() == old(self).histories().len()
                    &&& forall|j: int|
                        0 <= j < old(self).histories().len() && j != i ==> #[trigger] final(self).histories()[j]
                            == old(self).histories()[j]
                    &&& final(self).histories()[i].capacity() == h.capacity()
                    &&& final(self).histories()[i].view() == retained(
                        h.view().push(BidRecord { bidder, amount, ledger }),
                        h.capacity(),
                    )
                    &&& final(self).escrow() == old(self).escrow() + amount - paid(out.refund)
                    &&& final(self).escrowed() == old(self).escrowed()
                }
            },
    {
        proof {
            use_type_invariant(&*self);
        }
        if auction_id == 0 || auction_id > self.auctions.len() as u64 {
            return Err(MarketplaceError::AuctionNotFound);
        }
        let i = (auction_id - 1) as usize;
        let mut taken = Market::new();
        std::mem::swap(&mut taken, self);
        proof {
            use_type_invariant(&taken);
        }
        let Market { listings, active, offers, mut auctions, mut histories, custody } = taken;
        let ghost before = auctions@;
        let ghost before_h = histories@;
        let r = crate::closing::bid(
            &mut auctions[i],
            &mut histories[i],
            bidder,
            amount,
            now,
            ledger,
            max_total_duration,
            pause,
        );
        proof {
            if r is Err {
                assert(auctions@ =~= before);
                assert(histories@ =~= before_h);
            } else {
                lemma_escrow_tracks_highest_bid(before[i as int], bidder, amount, now, max_total_duration);
                lemma_auctions_escrow_update(before, i as int, auctions@[i as int]);
                assert(auctions@ =~= before.update(i as int, auctions@[i as int]));
            }
        }
        *self = Market { listings, active, offers, auctions, histories, custody };
        r
    }

    /// Closes auction `auction_id` at `now`: it must exist
    /// (`AuctionNotFound`), then as [`crate::closing::finalize_auction`]. What
    /// the auction held in escrow leaves it: to the winner's settlement, or
    /// nothing when no bid was placed. A refused close changes nothing.
    pub fn finalize_auction(
        &mut self,
        auction_id: u64,
        now: u64,
        pause: &PauseState,
        registry: &TokenRegistry,
        contract: AccountId,
        treasury_set: bool,
        royalty: Option<RoyaltyInfo>,
    ) -> (r: Result<AuctionClose, MarketplaceError>)
        ensures
            !(1 <= auction_id <= old(self).auctions().len()) ==> r == Err::<AuctionClose, MarketplaceError>(
                MarketplaceError::AuctionNotFound,
            ) && *final(self) == *old(self),
            r is Err ==> same_state(*old(self), *final(self)),
            r is Ok ==> released(
                old(self).escrowed(),
                final(self).escrowed(),
                old(self).auctions()[auction_id - 1].collection,
                old(self).auctions()[auction_id - 1].token_id,
            ),
            1 <= auction_id <= old(self).auctions().len() ==> {
                let i = auction_id - 1;
                let a = old(self).auctions()[i];
                let after = final(self).auctions()[i];
                &&& paused_for(*pause, Some(a.collection), "finalize_auction"@) ==> r == Err::<
                    AuctionClose,
                    MarketplaceError,
                >(MarketplaceError::ContractPaused)
                &&& !paused_for(*pause, Some(a.collection), "finalize_auction"@) ==> close_done(
                    a,
                    after,
                    now,
                    registry.view(),
                    contract,
                    treasury_set,
                    royalty,
                    r,
                )
                &&& r is Ok ==> {
                    &&& same_sales(*old(self), *final(self))
                    &&& final(self).auctions() == old(self).auctions().update(i, after)
                    &&& final(self).histories() == old(self).histories()
                    &&& final(self).escrow() + paid(winning_payment(a)) == old(self).escrow()
                }
            },
    {
        proof {
            use_type_invariant(&*self);
        }
        if auction_id == 0 || auction_id > self.auctions.len() as u64 {
            return Err(MarketplaceError::AuctionNotFound);
        }
        let i = (auction_id - 1) as usize;
        let mut taken = Market::new();
        std::mem::swap(&mut taken, self);
        proof {
            use_type_invariant(&taken);
        }
        let Market { listings, active, offers, mut auctions, histories, mut custody } = taken;
        let ghost before = auctions@;
        let ghost v0 = custody.view();
        proof {
            assert(auction_wf(auctions@[i as int]));
        }
        let r = crate::closing::finalize_auction(
            &mut auctions[i],
            now,
            pause,
            registry,
            contract,
            treasury_set,
            royalty,
        );
        proof {
            if r is Err {
                assert(auctions@ =~= before);
            } else {
                lemma_auctions_escrow_update(before, i as int, auctions@[i as int]);
                assert(auctions@ =~= before.update(i as int, auctions@[i as int]));
            }
        }
        if r.is_ok() {
            let collection = auctions[i].collection;
            let token_id = auctions[i].token_id;
            let _ = custody.release(collection, token_id);
            proof {
                lemma_close_auction(listings@, before, v0, custody.view(), i as int, auctions@[i as int]);
            }
        }
        *self = Market { listings, active, offers, auctions, histories, custody };
        r
    }

    /// The creator (`caller`) cancels auction `auction_id`: it must exist
    /// (`AuctionNotFound`), then as [`Auction::cancel`]. Only an auction
    /// without bids can be cancelled this way, so the escrow is unchanged. A
    /// refused cancellation changes nothing.
    pub fn cancel_auction(&mut self, auction_id: u64, caller: AccountId) -> (r: Result<(), MarketplaceError>)
        ensures
            !(1 <= auction_id <= old(self).auctions().len()) ==> r == Err::<(), MarketplaceError>(
                MarketplaceError::AuctionNotFound,
            ) && *final(self) == *old(self),
            r is Err ==> same_state(*old(self), *final(self)),
            r is Ok ==> released(
                old(self).escrowed(),
                final(self).escrowed(),
                old(self).auctions()[auction_id - 1].collection,
                old(self).auctions()[auction_id - 1].token_id,
            ),
            1 <= auction_id <= old(self).auctions().len() ==> {
                let a = old(self).auctions()[auction_id - 1];
                &&& r == cancel_auction_verdict(a, caller)
                &&& r is Ok ==> {
                    &&& same_sales(*old(self), *final(self))
                    &&& final(self).auctions() == old(self).auctions().update(
                        auction_id - 1,
                        Auction { status: AuctionStatus::Cancelled, ..a },
                    )
                    &&& final(self).histories() == old(self).histories()
                    &&& final(self).escrow() == old(self).escrow()
                }
            },
    {
        proof {
            use_type_invariant(&*self);
        }
        if auction_id == 0 || auction_id > self.auctions.len() as u64 {
            return Err(MarketplaceError::AuctionNotFound);
        }
        let i = (auction_id - 1) as usize;
        let mut taken = Market::new();
        std::mem::swap(&mut taken, self);
        proof {
            use_type_invariant(&taken);
        }
        let Market { listings, active, offers, mut auctions, histories, mut custody } = taken;
        let ghost before = auctions@;
        let ghost v0 = custody.view();
        let r = auctions[i].cancel(caller);
        proof {
            if r is Err {
                assert(auctions@ =~= before);
            } else {
                lemma_cancel_leaves_no_escrow(before[i as int], caller);
                lemma_auctions_escrow_update(before, i as int, auctions@[i as int]);
                assert(auctions@ =~= before.update(i as int, auctions@[i as int]));
            }
        }
        if r.is_ok() {
            let collection = auctions[i].collection;
            let token_id = auctions[i].token_id;
            let _ = custody.release(collection, token_id);
            proof {
                lemma_close_auction(listings@, before, v0, custody.view(), i as int, auctions@[i as int]);
            }
        }
        *self = Market { listings, active, offers, auctions, histories, custody };
        r
    }

    /// Cancels auction `auction_id` by administrative decision: it must exist
    /// (`AuctionNotFound`), then as [`Auction::admin_cancel`]. The refund to
    /// the highest bidder, if any, is exactly what leaves escrow. A refused
    /// call changes nothing.
    pub fn admin_cancel_auction(&mut self, auction_id: u64) -> (r: Result<Option<Payment>, MarketplaceError>)
        ensures
            !(1 <= auction_id <= old(self).auctions().len()) ==> r == Err::<Option<Payment>, MarketplaceError>(
                MarketplaceError::AuctionNotFound,
            ) && *final(self) == *old(self),
            r is Err ==> same_state(*old(self), *final(self)),
            r is Ok ==> released(
                old(self).escrowed(),
                final(self).escrowed(),
                old(self).auctions()[auction_id - 1].collection,
                old(self).auctions()[auction_id - 1].token_id,
            ),
            1 <= auction_id <= old(self).auctions().len() ==> {
                let a = old(self).auctions()[auction_id - 1];
                &&& a.status != AuctionStatus::Active ==> r == Err::<Option<Payment>, MarketplaceError>(
                    MarketplaceError::InvalidAuctionState,
                )
                &&& a.status == AuctionStatus::Active ==> {
                    &&& r == Ok::<Option<Payment>, MarketplaceError>(refund_of(a))
                    &&& same_sales(*old(self), *final(self))
                    &&& final(self).auctions() == old(self).auctions().update(
                        auction_id - 1,
                        Auction { status: AuctionStatus::Cancelled, ..a },
                    )
                    &&& final(self).histories() == old(self).histories()
                    &&& final(self).escrow() + paid(refund_of(a)) == old(self).escrow()
                }
            },
    {
        proof {
            use_type_invariant(&*self);
        }
        if auction_id == 0 || auction_id > self.auctions.len() as u64 {
            return Err(MarketplaceError::AuctionNotFound);
        }
        let i = (auction_id - 1) as usize;
        let mut taken = Market::new();
        std::mem::swap(&mut taken, self);
        proof {
            use_type_invariant(&taken);
        }
        let Market { listings, active, offers, mut auctions, histories, mut custody } = taken;
        let ghost before = auctions@;
        let ghost v0 = custody.view();
        let r = auctions[i].admin_cancel();
        proof {
            if r is Err {
                assert(auctions@ =~= before);
            } else {
                lemma_auctions_escrow_update(before, i as int, auctions@[i as int]);
                assert(auctions@ =~= before.update(i as int, auctions@[i as int]));
            }
        }
        if r.is_ok() {
            let collection = auctions[i].collection;
            let token_id = auctions[i].token_id;
            let _ = custody.release(collection, token_id);
            proof {
                lemma_close_auction(listings@, before, v0, custody.view(), i as int, auctions@[i as int]);
            }
        }
        *self = Market { listings, active, offers, auctions, histories, custody };
        r
    }
    /// The artist (`caller`) accepts offer `offer_id` at `now`: the offer
    /// must exist (`OfferNotFound`); then, as in
    /// [`crate::offer_sale::accept_offer`], the circuit breakers, the lock and
    /// [`acceptance_verdict`] decide. On success the offer's amount is
    /// settled, the listing is sold to the offerer and leaves the active
    /// index, the offer becomes `Accepted`, and every other pending offer on
    /// the listing is turned down and refunded: the escrow drops by the
    /// settled amount and the refunds. The listing's settlement lock stays
    /// held until the caller has made the payouts. A refused acceptance
    /// changes nothing.
    pub fn accept_offer(
        &mut self,
        offer_id: u64,
        caller: AccountId,
        now: u64,
        pause: &PauseState,
        locks: &mut ListingLocks,
        registry: &TokenRegistry,
        contract: AccountId,
        treasury_set: bool,
        royalty: Option<RoyaltyInfo>,
    ) -> (r: Result<OfferSale, MarketplaceError>)
        ensures
            r is Err ==> final(locks).view() == old(locks).view(),
            r is Ok ==> final(locks).view() == old(locks).view().insert(old(self).offers()[offer_id - 1].listing_id),
            !(1 <= offer_id <= old(self).offers().len()) ==> r == Err::<OfferSale, MarketplaceError>(
                MarketplaceError::OfferNotFound,
            ) && *final(self) == *old(self),
            r is Err ==> same_state(*old(self), *final(self)),
            1 <= offer_id <= old(self).offers().len() ==> {
                let o = old(self).offers()[offer_id - 1];
                let lid = o.listing_id;
                let l = old(self).listings()[lid - 1];
                let p = paused_for(*pause, Some(l.collection), "accept_offer"@);
                let locked = old(locks).view().contains(lid);
                let v = acceptance_verdict(l, o, caller, now, registry.view(), contract, treasury_set, royalty);
                &&& p ==> r == Err::<OfferSale, MarketplaceError>(MarketplaceError::ContractPaused)
                &&& !p && locked ==> r == Err::<OfferSale, MarketplaceError>(MarketplaceError::ReentrancyGuard)
                &&& !p && !locked && v is Err ==> r == Err::<OfferSale, MarketplaceError>(v->Err_0)
                &&& !p && !locked && v is Ok ==> r is Ok
                &&& r matches Ok(sale) ==> {
                    &&& settles(
                        sale.settlement,
                        o.amount as int,
                        l.artist,
                        l.recipients@,
                        l.protocol_fee_bps,
                        treasury_set,
                        royalty,
                    )
                    &&& final(self).listings() == old(self).listings().update(lid - 1, sold_to(l, o.offerer))
                    &&& same_auctions(*old(self), *final(self))
                    &&& forall|x: u64| #[trigger] final(self).active().contains(x) <==> (old(self).active().contains(x) && x != lid)
                    &&& final(self).offers().len() == old(self).offers().len()
                    &&& final(self).offers()[offer_id - 1] == (Offer { status: OfferStatus::Accepted, ..o })
                    &&& forall|i: int|
                        0 <= i < old(self).offers().len() && i != offer_id - 1 ==> #[trigger] final(self).offers()[i] == swept_for(old(self).offers()[i], lid)
                    &&& final(self).escrow() + o.amount + sum_paid(sale.refunds@) == old(self).escrow()
                    &&& released(old(self).escrowed(), final(self).escrowed(), l.collection, l.token_id)
                }
            },
    {
        proof {
            use_type_invariant(&*self);
        }
        if offer_id == 0 || offer_id > self.offers.len() as u64 {
            return Err(MarketplaceError::OfferNotFound);
        }
        let k = (offer_id - 1) as usize;
        let lid = self.offers[k].listing_id;
        let idx = (lid - 1) as usize;
        let mut taken = Market::new();
        std::mem::swap(&mut taken, self);
        proof {
            use_type_invariant(&taken);
        }
        let Market { mut listings, mut active, mut offers, auctions, histories, mut custody } = taken;
        let ghost before = listings@;
        let ghost old_offers = offers@;
        proof {
            assert(listings@[idx as int].listing_id == lid);
            assert(listing_wf(listings@[idx as int]));
        }
        let mut one: Vec<Offer> = Vec::new();
        one.push(offers[k]);
        let r = crate::offer_sale::accept_offer(
            &mut listings[idx],
            &mut one,
            0,
            caller,
            now,
            pause,
            locks,
            registry,
            contract,
            treasury_set,
            royalty,
        );
        match r {
            Err(e) => {
                proof {
                    assert(listings@ =~= before);
                }
                *self = Market { listings, active, offers, auctions, histories, custody };
                Err(e)
            },
            Ok(sale) => {
                let accepted = one[0];
                offers.set(k, accepted);
                proof {
                    lemma_offers_escrow_update(old_offers, k as int, accepted);
                }
                let refunds = retire_listing(&listings, &auctions, &mut active, &mut offers, &mut custody, lid, Ghost(before));
                *self = Market { listings, active, offers, auctions, histories, custody };
                Ok(OfferSale { settlement: sale.settlement, refunds })
            },
        }
    }
    /// Listing `id`, if there is one.
    pub fn listing(&self, id: u64) -> (r: Option<&Listing>)
        ensures
            r is Some <==> 1 <= id <= self.listings().len(),
            r matches Some(x) ==> *x == self.listings()[id - 1],
    {
        if id == 0 || id > self.listings.len() as u64 {
            None
        } else {
            Some(&self.listings[(id - 1) as usize])
        }
    }

    /// Offer `id`, if there is one.
    pub fn offer(&self, id: u64) -> (r: Option<&Offer>)
        ensures
            r is Some <==> 1 <= id <= self.offers().len(),
            r matches Some(x) ==> *x == self.offers()[id - 1],
    {
        if id == 0 || id > self.offers.len() as u64 {
            None
        } else {
            Some(&self.offers[(id - 1) as usize])
        }
    }

    /// Auction `id`, if there is one.
    pub fn auction(&self, id: u64) -> (r: Option<&Auction>)
        ensures
            r is Some <==> 1 <= id <= self.auctions().len(),
            r matches Some(x) ==> *x == self.auctions()[id - 1],
    {
        if id == 0 || id > self.auctions.len() as u64 {
            None
        } else {
            Some(&self.auctions[(id - 1) as usize])
        }
    }

    /// The bid history of auction `id`, if there is one.
    pub fn bid_history(&self, id: u64) -> (r: Option<&BidHistory>)
        ensures
            r is Some <==> 1 <= id <= self.auctions().len(),
            r matches Some(x) ==> *x == self.histories()[id - 1],
    {
        proof {
            use_type_invariant(self);
        }
        if id == 0 || id > self.histories.len() as u64 {
            None
        } else {
            Some(&self.histories[(id - 1) as usize])
        }
    }
    /// Cleans up after revoked artist `artist`: cancels the first `max` of
    /// their active listings (see [`crate::revocation::cancel_artist_listings`])
    /// and, for each, takes it out of the active index, turns down and
    /// refunds its pending offers and releases its token, whose record is
    /// returned so that the token goes back to the artist. Returns how many
    /// active listings of the artist remain, so that a caller repeats until
    /// none do.
    pub fn cancel_artist_listings(&mut self, artist: AccountId, max: u32) -> (r: RevocationSweep)
        ensures
            ({
                let before = old(self).listings();
                let count = count_active(before, artist);
                &&& r.remaining == count - min_nat(max as nat, count)
                &&& final(self).listings().len() == before.len()
                &&& forall|j: int|
                    0 <= j < before.len() ==> #[trigger] final(self).listings()[j] == after_batch(
                        before,
                        artist,
                        max as nat,
                        j,
                    )
                &&& same_auctions(*old(self), *final(self))
                &&& final(self).offers().len() == old(self).offers().len()
                &&& forall|k: int|
                    0 <= k < old(self).offers().len() ==> #[trigger] final(self).offers()[k] == swept_by(
                        old(self).offers()[k],
                        before,
                        final(self).listings(),
                    )
                &&& final(self).escrow() + sum_paid(r.refunds@) == old(self).escrow()
                &&& r.returned@ == sweep_records(before, artist, max as nat, before.len())
            }),
    {
        let ghost start = *self;
        let ghost before = self.listings();
        let n: usize = self.listings.len();
        let mut refunds: Vec<Payment> = Vec::new();
        let mut returned: Vec<EscrowRecord> = Vec::new();
        let mut done: u32 = 0;
        let mut remaining: u64 = 0;
        let mut i: usize = 0;
        while i < n
            invariant
                n == before.len(),
                before == start.listings(),
                self.listings().len() == n,
                i <= n,
                done <= max,
                done == min_nat(max as nat, count_active(before.take(i as int), artist)),
                remaining + done == count_active(before.take(i as int), artist),
                count_active(before.take(i as int), artist) <= i,
                forall|j: int|
                    0 <= j < i ==> #[trigger] self.listings()[j] == after_batch(before, artist, max as nat, j),
                forall|j: int| i <= j < n ==> #[trigger] self.listings()[j] == before[j],
                same_auctions(start, *self),
                self.offers().len() == start.offers().len(),
                forall|k: int|
                    0 <= k < start.offers().len() ==> #[trigger] self.offers()[k] == swept_by(
                        start.offers()[k],
                        before,
                        self.listings(),
                    ),
                self.escrow() + sum_paid(refunds@) == start.escrow(),
                returned@ == sweep_records(before, artist, max as nat, i as nat),
            decreases n - i,
        {
            proof {
                use_type_invariant(&*self);
                assert(before.take(i as int + 1).drop_last() =~= before.take(i as int));
                assert(before.take(i as int + 1).last() == before[i as int]);
                assert(self.listings()[i as int] == before[i as int]);
            }
            let id: u64 = i as u64 + 1;
            let is_target = self.listings[i].artist == artist && self.listings[i].status == ListingStatus::Active;
            let collection = self.listings[i].collection;
            let token_id = self.listings[i].token_id;
            if is_target {
                if done < max {
                    let ghost prev = *self;
                    let ghost l = self.listings()[i as int];
                    let ghost prev_refunds = refunds@;
                    // An active listing of `artist` cancelled by `artist`:
                    // the cancellation goes through.
                    let r = self.cancel_listing(id, artist);
                    match r {
                        Ok(mut paid_back) => {
                            proof {
                                assert(retired(prev, *self, id, Listing { status: ListingStatus::Cancelled, ..l }, paid_back@));
                                lemma_sum_paid_append(prev_refunds, paid_back@);
                                assert forall|k: int|
                                    0 <= k < start.offers().len() implies #[trigger] self.offers()[k] == swept_by(
                                    start.offers()[k],
                                    before,
                                    self.listings(),
                                ) by {
                                    assert(self.offers()[k] == swept_for(prev.offers()[k], id));
                                    assert(prev.offers()[k] == swept_by(start.offers()[k], before, prev.listings()));
                                    let lid = start.offers()[k].listing_id;
                                    if 1 <= lid <= n && lid != id {
                                        assert(self.listings()[lid - 1] == prev.listings()[lid - 1]);
                                    }
                                }
                                assert forall|j: int|
                                    0 <= j < i + 1 implies #[trigger] self.listings()[j] == after_batch(
                                    before,
                                    artist,
                                    max as nat,
                                    j,
                                ) by {
                                    if j < i {
                                        assert(self.listings()[j] == prev.listings()[j]);
                                    }
                                }
                                assert forall|j: int| i + 1 <= j < n implies #[trigger] self.listings()[j]
                                    == before[j] by {
                                    assert(self.listings()[j] == prev.listings()[j]);
                                }
                            }
                            refunds.append(&mut paid_back);
                            returned.push(
                                EscrowRecord {
                                    collection,
                                    token_id,
                                    depositor: artist,
                                    purpose: EscrowPurpose::Listing(id),
                                },
                            );
                        },
                        Err(_) => {},
                    }
                    done = done + 1;
                } else {
                    remaining = remaining + 1;
                }
            }
            i = i + 1;
        }
        proof {
            assert(before.take(n as int) =~= before);
        }
        RevocationSweep { remaining, refunds, returned }
    }
}

} // verus!
