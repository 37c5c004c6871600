//! What the marketplace holds in custody for the whole state: exactly the
//! tokens of its active listings and auctions, each once.
use vstd::prelude::*;

use crate::auction::Auction;
use crate::custody::{
    held_once, lemma_escrow_then_release, lemma_record_of_is_for, lemma_record_of_push_other, record_of,
    EscrowPurpose, EscrowRecord,
};
use crate::types::{AccountId, AuctionStatus, Listing, ListingStatus};

verus! {

/// The custody record of the token of listing `l`.
pub open spec fn listing_record(l: Listing) -> EscrowRecord {
    EscrowRecord {
        collection: l.collection,
        token_id: l.token_id,
        depositor: l.artist,
        purpose: EscrowPurpose::Listing(l.listing_id),
    }
}

/// The custody record of the token of auction `a`.
pub open spec fn auction_record(a: Auction) -> EscrowRecord {
    EscrowRecord {
        collection: a.collection,
        token_id: a.token_id,
        depositor: a.creator,
        purpose: EscrowPurpose::Auction(a.auction_id),
    }
}

/// Record `r` is the record of an active listing or auction (ids start at 1).
pub open spec fn backs(listings: Seq<Listing>, auctions: Seq<Auction>, r: EscrowRecord) -> bool {
    match r.purpose {
        EscrowPurpose::Listing(id) => 1 <= id <= listings.len() && listings[id - 1].status
            == ListingStatus::Active && listing_record(listings[id - 1]) == r,
        EscrowPurpose::Auction(id) => 1 <= id <= auctions.len() && auctions[id - 1].status
            == AuctionStatus::Active && auction_record(auctions[id - 1]) == r,
    }
}

/// The listings and auctions carry their ids, starting at 1.
pub open spec fn ids_in_order(listings: Seq<Listing>, auctions: Seq<Auction>) -> bool {
    &&& forall|i: int| 0 <= i < listings.len() ==> #[trigger] listings[i].listing_id == i + 1
    &&& forall|i: int| 0 <= i < auctions.len() ==> #[trigger] auctions[i].auction_id == i + 1
}

/// The records `v` hold the token of every active listing and auction, and
/// nothing else, each token once.
pub open spec fn custody_holds(listings: Seq<Listing>, auctions: Seq<Auction>, v: Seq<EscrowRecord>) -> bool {
    &&& held_once(v)
    &&& forall|i: int|
        0 <= i < listings.len() && (#[trigger] listings[i]).status == ListingStatus::Active ==> record_of(
            v,
            listings[i].collection,
            listings[i].token_id,
        ) == Some(listing_record(listings[i]))
    &&& forall|i: int|
        0 <= i < auctions.len() && (#[trigger] auctions[i]).status == AuctionStatus::Active ==> record_of(
            v,
            auctions[i].collection,
            auctions[i].token_id,
        ) == Some(auction_record(auctions[i]))
    &&& forall|c: AccountId, t: u64| #[trigger] record_of(v, c, t) matches Some(r) ==> backs(listings, auctions, r)
}

/// `after` is `before` with the token `(collection, token_id)` released.
pub open spec fn released(before: Seq<EscrowRecord>, after: Seq<EscrowRecord>, collection: AccountId, token_id: u64) -> bool {
    &&& held_once(after)
    &&& record_of(after, collection, token_id) is None
    &&& forall|c: AccountId, t: u64|
        !(c == collection && t == token_id) ==> #[trigger] record_of(after, c, t) == record_of(before, c, t)
}

/// Closing active listing `i` and releasing its token keeps the custody
/// exact.
pub proof fn lemma_close_listing(
    listings: Seq<Listing>,
    auctions: Seq<Auction>,
    v: Seq<EscrowRecord>,
    after: Seq<EscrowRecord>,
    i: int,
    l: Listing,
)
    requires
        custody_holds(listings, auctions, v),
        ids_in_order(listings, auctions),
        0 <= i < listings.len(),
        listings[i].status == ListingStatus::Active,
        l.status != ListingStatus::Active,
        released(v, after, listings[i].collection, listings[i].token_id),
    ensures
        custody_holds(listings.update(i, l), auctions, after),
{
    let li = listings[i];
    let s = listings.update(i, l);
    assert(record_of(v, li.collection, li.token_id) == Some(listing_record(li)));
    assert forall|j: int| 0 <= j < s.len() && (#[trigger] s[j]).status == ListingStatus::Active implies record_of(
        after,
        s[j].collection,
        s[j].token_id,
    ) == Some(listing_record(s[j])) by {
        assert(j != i);
        assert(s[j] == listings[j]);
        assert(record_of(v, listings[j].collection, listings[j].token_id) == Some(listing_record(listings[j])));
        if listings[j].collection == li.collection && listings[j].token_id == li.token_id {
            assert(listing_record(listings[j]).purpose != listing_record(li).purpose);
        }
    }
    assert forall|j: int| 0 <= j < auctions.len() && (#[trigger] auctions[j]).status == AuctionStatus::Active implies record_of(
        after,
        auctions[j].collection,
        auctions[j].token_id,
    ) == Some(auction_record(auctions[j])) by {
        assert(record_of(v, auctions[j].collection, auctions[j].token_id) == Some(auction_record(auctions[j])));
        if auctions[j].collection == li.collection && auctions[j].token_id == li.token_id {
            assert(auction_record(auctions[j]).purpose != listing_record(li).purpose);
        }
    }
    assert forall|c: AccountId, t: u64| #[trigger] record_of(after, c, t) is Some implies backs(s, auctions, record_of(after, c, t)->Some_0) by {
        let r = record_of(after, c, t)->Some_0;
        assert(!(c == li.collection && t == li.token_id));
        assert(record_of(v, c, t) == Some(r));
        lemma_record_of_is_for(v, c, t);
        assert(backs(listings, auctions, r));
        if r.purpose == EscrowPurpose::Listing(li.listing_id) {
            assert(listing_record(listings[i]) == r);
        }
    }
}

/// Closing active auction `i` and releasing its token keeps the custody
/// exact.
pub proof fn lemma_close_auction(
    listings: Seq<Listing>,
    auctions: Seq<Auction>,
    v: Seq<EscrowRecord>,
    after: Seq<EscrowRecord>,
    i: int,
    a: Auction,
)
    requires
        custody_holds(listings, auctions, v),
        ids_in_order(listings, auctions),
        0 <= i < auctions.len(),
        auctions[i].status == AuctionStatus::Active,
        a.status != AuctionStatus::Active,
        released(v, after, auctions[i].collection, auctions[i].token_id),
    ensures
        custody_holds(listings, auctions.update(i, a), after),
{
    let ai = auctions[i];
    let s = auctions.update(i, a);
    assert(record_of(v, ai.collection, ai.token_id) == Some(auction_record(ai)));
    assert forall|j: int| 0 <= j < listings.len() && (#[trigger] listings[j]).status == ListingStatus::Active implies record_of(
        after,
        listings[j].collection,
        listings[j].token_id,
    ) == Some(listing_record(listings[j])) by {
        assert(record_of(v, listings[j].collection, listings[j].token_id) == Some(listing_record(listings[j])));
        if listings[j].collection == ai.collection && listings[j].token_id == ai.token_id {
            assert(listing_record(listings[j]).purpose != auction_record(ai).purpose);
        }
    }
    assert forall|j: int| 0 <= j < s.len() && (#[trigger] s[j]).status == AuctionStatus::Active implies record_of(
        after,
        s[j].collection,
        s[j].token_id,
    ) == Some(auction_record(s[j])) by {
        assert(j != i);
        assert(s[j] == auctions[j]);
        assert(record_of(v, auctions[j].collection, auctions[j].token_id) == Some(auction_record(auctions[j])));
        if auctions[j].collection == ai.collection && auctions[j].token_id == ai.token_id {
            assert(auction_record(auctions[j]).purpose != auction_record(ai).purpose);
        }
    }
    assert forall|c: AccountId, t: u64| #[trigger] record_of(after, c, t) is Some implies backs(listings, s, record_of(after, c, t)->Some_0) by {
        let r = record_of(after, c, t)->Some_0;
        assert(!(c == ai.collection && t == ai.token_id));
        assert(record_of(v, c, t) == Some(r));
        lemma_record_of_is_for(v, c, t);
        assert(backs(listings, auctions, r));
        if r.purpose == EscrowPurpose::Auction(ai.auction_id) {
            assert(auction_record(auctions[i]) == r);
        }
    }
}

/// Opening listing `l` with its token taken into custody keeps the custody
/// exact.
pub proof fn lemma_open_listing(listings: Seq<Listing>, auctions: Seq<Auction>, v: Seq<EscrowRecord>, l: Listing)
    requires
        custody_holds(listings, auctions, v),
        ids_in_order(listings, auctions),
        l.listing_id == listings.len() + 1,
        l.status == ListingStatus::Active,
        record_of(v, l.collection, l.token_id) is None,
    ensures
        custody_holds(listings.push(l), auctions, v.push(listing_record(l))),
{
    let rec = listing_record(l);
    let s = listings.push(l);
    let v2 = v.push(rec);
    lemma_escrow_then_release(v, l.collection, l.token_id, l.artist, EscrowPurpose::Listing(l.listing_id));
    assert forall|j: int| 0 <= j < s.len() && (#[trigger] s[j]).status == ListingStatus::Active implies record_of(
        v2,
        s[j].collection,
        s[j].token_id,
    ) == Some(listing_record(s[j])) by {
        if j < listings.len() {
            assert(s[j] == listings[j]);
            assert(record_of(v, listings[j].collection, listings[j].token_id) == Some(listing_record(listings[j])));
            lemma_record_of_push_other(v, rec, s[j].collection, s[j].token_id);
        }
    }
    assert forall|j: int| 0 <= j < auctions.len() && (#[trigger] auctions[j]).status == AuctionStatus::Active implies record_of(
        v2,
        auctions[j].collection,
        auctions[j].token_id,
    ) == Some(auction_record(auctions[j])) by {
        assert(record_of(v, auctions[j].collection, auctions[j].token_id) == Some(auction_record(auctions[j])));
        lemma_record_of_push_other(v, rec, auctions[j].collection, auctions[j].token_id);
    }
    assert forall|c: AccountId, t: u64| #[trigger] record_of(v2, c, t) is Some implies backs(s, auctions, record_of(v2, c, t)->Some_0) by {
        if c == l.collection && t == l.token_id {
            assert(s[l.listing_id - 1] == l);
        } else {
            lemma_record_of_push_other(v, rec, c, t);
            let r = record_of(v, c, t)->Some_0;
            assert(backs(listings, auctions, r));
            if let EscrowPurpose::Listing(id) = r.purpose {
                assert(s[id - 1] == listings[id - 1]);
            }
        }
    }
}

/// Opening auction `a` with its token taken into custody keeps the custody
/// exact.
pub proof fn lemma_open_auction(listings: Seq<Listing>, auctions: Seq<Auction>, v: Seq<EscrowRecord>, a: Auction)
    requires
        custody_holds(listings, auctions, v),
        ids_in_order(listings, auctions),
        a.auction_id == auctions.len() + 1,
        a.status == AuctionStatus::Active,
        record_of(v, a.collection, a.token_id) is None,
    ensures
        custody_holds(listings, auctions.push(a), v.push(auction_record(a))),
{
    let rec = auction_record(a);
    let s = auctions.push(a);
    let v2 = v.push(rec);
    lemma_escrow_then_release(v, a.collection, a.token_id, a.creator, EscrowPurpose::Auction(a.auction_id));
    assert forall|j: int| 0 <= j < listings.len() && (#[trigger] listings[j]).status == ListingStatus::Active implies record_of(
        v2,
        listings[j].collection,
        listings[j].token_id,
    ) == Some(listing_record(listings[j])) by {
        assert(record_of(v, listings[j].collection, listings[j].token_id) == Some(listing_record(listings[j])));
        lemma_record_of_push_other(v, rec, listings[j].collection, listings[j].token_id);
    }
    assert forall|j: int| 0 <= j < s.len() && (#[trigger] s[j]).status == AuctionStatus::Active implies record_of(
        v2,
        s[j].collection,
        s[j].token_id,
    ) == Some(auction_record(s[j])) by {
        if j < auctions.len() {
            assert(s[j] == auctions[j]);
            assert(record_of(v, auctions[j].collection, auctions[j].token_id) == Some(auction_record(auctions[j])));
            lemma_record_of_push_other(v, rec, s[j].collection, s[j].token_id);
        }
    }
    assert forall|c: AccountId, t: u64| #[trigger] record_of(v2, c, t) is Some implies backs(listings, s, record_of(v2, c, t)->Some_0) by {
        if c == a.collection && t == a.token_id {
            assert(s[a.auction_id - 1] == a);
        } else {
            lemma_record_of_push_other(v, rec, c, t);
            let r = record_of(v, c, t)->Some_0;
            assert(backs(listings, auctions, r));
            if let EscrowPurpose::Auction(id) = r.purpose {
                assert(s[id - 1] == auctions[id - 1]);
            }
        }
    }
}

/// Changing an auction without changing its status or its token's record
/// keeps the custody exact.
pub proof fn lemma_auction_kept(
    listings: Seq<Listing>,
    auctions: Seq<Auction>,
    v: Seq<EscrowRecord>,
    i: int,
    a: Auction,
)
    requires
        custody_holds(listings, auctions, v),
        0 <= i < auctions.len(),
        a.status == auctions[i].status,
        auction_record(a) == auction_record(auctions[i]),
    ensures
        custody_holds(listings, auctions.update(i, a), v),
{
    let s = auctions.update(i, a);
    assert forall|j: int| 0 <= j < s.len() && (#[trigger] s[j]).status == AuctionStatus::Active implies record_of(
        v,
        s[j].collection,
        s[j].token_id,
    ) == Some(auction_record(s[j])) by {
        assert(auctions[j].status == AuctionStatus::Active);
    }
    assert forall|c: AccountId, t: u64| #[trigger] record_of(v, c, t) is Some implies backs(listings, s, record_of(v, c, t)->Some_0) by {
        let r = record_of(v, c, t)->Some_0;
        assert(backs(listings, auctions, r));
    }
}

} // verus!
