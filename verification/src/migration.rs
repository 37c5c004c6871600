//! Moving a store written under the earlier schema, whose indexes were
//! single entries, to paged indexes: in bounded steps that can be resumed,
//! once per deployment.
use std::collections::HashMap;
use vstd::prelude::*;

use crate::auction::Auction;
use crate::errors::MarketplaceError;
use crate::index::PagedIndex;
use crate::market::pending_on;
use crate::types::{AccountId, Listing, Offer, OfferStatus};

verus! {

broadcast use vstd::std_specs::hash::group_hash_axioms;

/// The paged index that appending the ids of `s` in order builds from an
/// empty one (an id already present is not added again).
pub open spec fn appended(s: Seq<u64>) -> Seq<u64>
    decreases s.len(),
{
    if s.len() == 0 {
        Seq::empty()
    } else if appended(s.drop_last()).contains(s.last()) {
        appended(s.drop_last())
    } else {
        appended(s.drop_last()).push(s.last())
    }
}

proof fn lemma_appended_len(s: Seq<u64>)
    ensures
        appended(s).len() <= s.len(),
    decreases s.len(),
{
    if s.len() > 0 {
        lemma_appended_len(s.drop_last());
    }
}

/// A legacy index without repeated ids is carried over exactly, in order.
pub proof fn lemma_distinct_legacy_carried_over(s: Seq<u64>)
    requires
        forall|i: int, j: int| 0 <= i < j < s.len() ==> s[i] != s[j],
    ensures
        appended(s) == s,
    decreases s.len(),
{
    if s.len() > 0 {
        let t = s.drop_last();
        assert forall|i: int, j: int| 0 <= i < j < t.len() implies t[i] != t[j] by {
            assert(s[i] != s[j]);
        }
        lemma_distinct_legacy_carried_over(t);
        if t.contains(s.last()) {
            let k = choose|k: int| 0 <= k < t.len() && t[k] == s.last();
            assert(s[k] != s[s.len() - 1]);
        }
        assert(t.push(s.last()) =~= s);
    }
}

/// Each step with a positive bound moves at least one id while any remain,
/// so repeated steps finish the migration.
pub proof fn lemma_steps_make_progress(left: nat, max: nat)
    requires
        max > 0,
        left > 0,
    ensures
        (left - (if max < left { max } else { left })) < left,
{
}


/// The ids paired with `key` in `pairs`, in order.
pub open spec fn keyed_ids(pairs: Seq<(u64, u64)>, key: u64) -> Seq<u64>
    decreases pairs.len(),
{
    if pairs.len() == 0 {
        Seq::empty()
    } else if pairs.last().0 == key {
        keyed_ids(pairs.drop_last(), key).push(pairs.last().1)
    } else {
        keyed_ids(pairs.drop_last(), key)
    }
}

proof fn lemma_keyed_ids_len(pairs: Seq<(u64, u64)>, key: u64)
    ensures
        keyed_ids(pairs, key).len() <= pairs.len(),
    decreases pairs.len(),
{
    if pairs.len() > 0 {
        lemma_keyed_ids_len(pairs.drop_last(), key);
    }
}

/// One paged index per key (an artist, a listing, an offerer).
pub struct KeyedIndex {
    map: HashMap<u64, PagedIndex>,
}

impl KeyedIndex {
    /// The ids filed under `key`, in order.
    pub closed spec fn ids(self, key: u64) -> Seq<u64> {
        if self.map@.contains_key(key) {
            self.map@[key].view()
        } else {
            Seq::empty()
        }
    }

    /// No ids under any key.
    pub fn new() -> (r: KeyedIndex)
        ensures
            forall|k: u64| #[trigger] r.ids(k) == Seq::<u64>::empty(),
    {
        KeyedIndex { map: HashMap::new() }
    }

    /// The paged index of `key`; none while nothing is filed under it.
    pub fn get(&self, key: u64) -> (r: Option<&PagedIndex>)
        ensures
            r matches Some(x) ==> x.view() == self.ids(key),
            r is None ==> self.ids(key) == Seq::<u64>::empty(),
    {
        self.map.get(&key)
    }

    /// Files `id` under `key` (an id already there stays where it is).
    pub fn add(&mut self, key: u64, id: u64)
        requires
            old(self).ids(key).len() < u32::MAX,
        ensures
            forall|k: u64| k != key ==> #[trigger] final(self).ids(k) == old(self).ids(k),
            old(self).ids(key).contains(id) ==> final(self).ids(key) == old(self).ids(key),
            !old(self).ids(key).contains(id) ==> final(self).ids(key) == old(self).ids(key).push(id),
    {
        let mut idx = match self.map.remove(&key) {
            Some(i) => i,
            None => PagedIndex::new(),
        };
        idx.append(id);
        self.map.insert(key, idx);
    }
}

/// A counter per key (pending offers per listing).
pub struct PendingCounts {
    map: HashMap<u64, u32>,
}

impl PendingCounts {
    /// The count of `key`; 0 when never counted.
    pub closed spec fn count(self, key: u64) -> nat {
        if self.map@.contains_key(key) {
            self.map@[key] as nat
        } else {
            0
        }
    }

    /// Every count 0.
    pub fn new() -> (r: PendingCounts)
        ensures
            forall|k: u64| #[trigger] r.count(k) == 0,
    {
        PendingCounts { map: HashMap::new() }
    }

    /// The count of `key`.
    pub fn get(&self, key: u64) -> (r: u32)
        ensures
            r == self.count(key),
    {
        match self.map.get(&key) {
            Some(c) => *c,
            None => 0,
        }
    }

    /// Adds one to the count of `key`.
    pub fn bump(&mut self, key: u64)
        requires
            old(self).count(key) < u32::MAX,
        ensures
            final(self).count(key) == old(self).count(key) + 1,
            forall|k: u64| k != key ==> #[trigger] final(self).count(k) == old(self).count(k),
    {
        let c = self.get(key);
        self.map.insert(key, c + 1);
    }
}


/// (artist, listing id) for each listing of `s`.
pub open spec fn listing_pairs(s: Seq<Listing>) -> Seq<(u64, u64)> {
    s.map_values(|l: Listing| (l.artist.0, l.listing_id))
}

/// (creator, auction id) for each auction of `s`.
pub open spec fn auction_pairs(s: Seq<Auction>) -> Seq<(u64, u64)> {
    s.map_values(|a: Auction| (a.creator.0, a.auction_id))
}

/// (listing id, offer id) for each offer of `s`.
pub open spec fn offer_listing_pairs(s: Seq<Offer>) -> Seq<(u64, u64)> {
    s.map_values(|o: Offer| (o.listing_id, o.offer_id))
}

/// (offerer, offer id) for each offer of `s`.
pub open spec fn offerer_pairs(s: Seq<Offer>) -> Seq<(u64, u64)> {
    s.map_values(|o: Offer| (o.offerer.0, o.offer_id))
}

/// How many of the `size` units that come after the first `before` units
/// are among the first `moved`.
pub open spec fn units_in(moved: nat, before: nat, size: nat) -> nat {
    if moved <= before {
        0
    } else if moved - before >= size {
        size
    } else {
        (moved - before) as nat
    }
}

proof fn lemma_pending_on_len(s: Seq<Offer>, listing_id: u64)
    ensures
        pending_on(s, listing_id) <= s.len(),
    decreases s.len(),
{
    if s.len() > 0 {
        lemma_pending_on_len(s.drop_last(), listing_id);
    }
}

/// The store as the earlier schema left it: the entity records, and the
/// single-entry index of the active listings.
pub struct LegacyStore {
    pub listings: Vec<Listing>,
    pub auctions: Vec<Auction>,
    pub offers: Vec<Offer>,
    pub active: Vec<u64>,
}

/// The migration of a legacy store to paged indexes, one unit of work at a
/// time: each listing (filed under its artist), each auction (under its
/// creator), each offer (under its listing and its offerer, and counted
/// when pending), and last the index of active listings as a whole.
pub struct StoreMigration {
    legacy: LegacyStore,
    cursor: usize,
    artist_listings: KeyedIndex,
    artist_auctions: KeyedIndex,
    listing_offers: KeyedIndex,
    offerer_offers: KeyedIndex,
    pending: PendingCounts,
    active: PagedIndex,
}

impl StoreMigration {
    #[verifier::type_invariant]
    spec fn inv(self) -> bool {
        let l = self.legacy.listings@;
        let a = self.legacy.auctions@;
        let o = self.legacy.offers@;
        let m = self.cursor as nat;
        let ld = units_in(m, 0, l.len());
        let ad = units_in(m, l.len(), a.len());
        let od = units_in(m, l.len() + a.len(), o.len());
        &&& l.len() + a.len() + o.len() + 1 < u32::MAX
        &&& self.legacy.active@.len() < u32::MAX
        &&& m <= l.len() + a.len() + o.len() + 1
        &&& forall|k: u64| #[trigger]
            self.artist_listings.ids(k) == appended(keyed_ids(listing_pairs(l.take(ld as int)), k))
        &&& forall|k: u64| #[trigger]
            self.artist_auctions.ids(k) == appended(keyed_ids(auction_pairs(a.take(ad as int)), k))
        &&& forall|k: u64| #[trigger]
            self.listing_offers.ids(k) == appended(keyed_ids(offer_listing_pairs(o.take(od as int)), k))
        &&& forall|k: u64| #[trigger]
            self.offerer_offers.ids(k) == appended(keyed_ids(offerer_pairs(o.take(od as int)), k))
        &&& forall|k: u64| #[trigger] self.pending.count(k) == pending_on(o.take(od as int), k)
        &&& self.active.view() == if m == l.len() + a.len() + o.len() + 1 {
            appended(self.legacy.active@)
        } else {
            Seq::<u64>::empty()
        }
    }

    /// The legacy listings.
    pub closed spec fn listings(self) -> Seq<Listing> {
        self.legacy.listings@
    }

    /// The legacy auctions.
    pub closed spec fn auctions(self) -> Seq<Auction> {
        self.legacy.auctions@
    }

    /// The legacy offers.
    pub closed spec fn offers(self) -> Seq<Offer> {
        self.legacy.offers@
    }

    /// The legacy index of active listings.
    pub closed spec fn legacy_active(self) -> Seq<u64> {
        self.legacy.active@
    }

    /// How many units of work were done so far.
    pub closed spec fn moved(self) -> nat {
        self.cursor as nat
    }

    /// All the units of work: one per listing, auction and offer, and one
    /// for the index of active listings.
    pub open spec fn units(self) -> nat {
        self.listings().len() + self.auctions().len() + self.offers().len() + 1
    }

    /// Whether the migration completed.
    pub open spec fn is_complete(self) -> bool {
        self.moved() == self.units()
    }

    /// The listings already filed.
    pub open spec fn listings_done(self) -> Seq<Listing> {
        self.listings().take(units_in(self.moved(), 0, self.listings().len()) as int)
    }

    /// The auctions already filed.
    pub open spec fn auctions_done(self) -> Seq<Auction> {
        self.auctions().take(units_in(self.moved(), self.listings().len(), self.auctions().len()) as int)
    }

    /// The offers already filed.
    pub open spec fn offers_done(self) -> Seq<Offer> {
        self.offers().take(
            units_in(self.moved(), self.listings().len() + self.auctions().len(), self.offers().len()) as int,
        )
    }

    /// A migration of `legacy` that has not started.
    pub fn new(legacy: LegacyStore) -> (m: StoreMigration)
        requires
            legacy.listings@.len() + legacy.auctions@.len() + legacy.offers@.len() + 1 < u32::MAX,
            legacy.active@.len() < u32::MAX,
        ensures
            m.listings() == legacy.listings@,
            m.auctions() == legacy.auctions@,
            m.offers() == legacy.offers@,
            m.legacy_active() == legacy.active@,
            m.moved() == 0,
    {
        let m = StoreMigration {
            legacy,
            cursor: 0,
            artist_listings: KeyedIndex::new(),
            artist_auctions: KeyedIndex::new(),
            listing_offers: KeyedIndex::new(),
            offerer_offers: KeyedIndex::new(),
            pending: PendingCounts::new(),
            active: PagedIndex::new(),
        };
        proof {
            assert(m.legacy.listings@.take(0) =~= Seq::<Listing>::empty());
            assert(m.legacy.auctions@.take(0) =~= Seq::<Auction>::empty());
            assert(m.legacy.offers@.take(0) =~= Seq::<Offer>::empty());
            assert(listing_pairs(Seq::<Listing>::empty()) =~= Seq::<(u64, u64)>::empty());
            assert(auction_pairs(Seq::<Auction>::empty()) =~= Seq::<(u64, u64)>::empty());
            assert(offer_listing_pairs(Seq::<Offer>::empty()) =~= Seq::<(u64, u64)>::empty());
            assert(offerer_pairs(Seq::<Offer>::empty()) =~= Seq::<(u64, u64)>::empty());
        }
        m
    }
    fn empty() -> (m: StoreMigration) {
        StoreMigration::new(LegacyStore { listings: Vec::new(), auctions: Vec::new(), offers: Vec::new(), active: Vec::new() })
    }

    /// Does the next unit of work.
    fn unit(&mut self)
        requires
            old(self).moved() < old(self).units(),
        ensures
            final(self).moved() == old(self).moved() + 1,
            final(self).listings() == old(self).listings(),
            final(self).auctions() == old(self).auctions(),
            final(self).offers() == old(self).offers(),
            final(self).legacy_active() == old(self).legacy_active(),
    {
        proof {
            use_type_invariant(&*self);
        }
        let mut taken = StoreMigration::empty();
        std::mem::swap(&mut taken, self);
        proof {
            use_type_invariant(&taken);
        }
        let StoreMigration {
            legacy,
            cursor,
            mut artist_listings,
            mut artist_auctions,
            mut listing_offers,
            mut offerer_offers,
            mut pending,
            mut active,
        } = taken;
        let nl = legacy.listings.len();
        let na = legacy.auctions.len();
        let no = legacy.offers.len();
        let ghost l = legacy.listings@;
        let ghost a = legacy.auctions@;
        let ghost o = legacy.offers@;
        let ghost c = cursor as nat;
        if cursor < nl {
            let key = legacy.listings[cursor].artist.0;
            let id = legacy.listings[cursor].listing_id;
            proof {
                let p = listing_pairs(l.take(c as int));
                assert(listing_pairs(l.take(c as int + 1)) =~= p.push((key, id)));
                assert(p.push((key, id)).drop_last() =~= p);
                lemma_keyed_ids_len(p, key);
                lemma_appended_len(keyed_ids(p, key));
            }
            artist_listings.add(key, id);
            proof {
                let p = listing_pairs(l.take(c as int));
                assert forall|k: u64| #[trigger] artist_listings.ids(k) == appended(
                    keyed_ids(listing_pairs(l.take(c as int + 1)), k),
                ) by {
                    if k == key {
                        assert(keyed_ids(p, k).push(id).drop_last() =~= keyed_ids(p, k));
                    }
                }
            }
        } else if cursor < nl + na {
            let j = cursor - nl;
            let key = legacy.auctions[j].creator.0;
            let id = legacy.auctions[j].auction_id;
            proof {
                let p = auction_pairs(a.take(j as int));
                assert(auction_pairs(a.take(j as int + 1)) =~= p.push((key, id)));
                assert(p.push((key, id)).drop_last() =~= p);
                lemma_keyed_ids_len(p, key);
                lemma_appended_len(keyed_ids(p, key));
            }
            artist_auctions.add(key, id);
            proof {
                let p = auction_pairs(a.take(j as int));
                assert forall|k: u64| #[trigger] artist_auctions.ids(k) == appended(
                    keyed_ids(auction_pairs(a.take(j as int + 1)), k),
                ) by {
                    if k == key {
                        assert(keyed_ids(p, k).push(id).drop_last() =~= keyed_ids(p, k));
                    }
                }
            }
        } else if cursor < nl + na + no {
            let j = cursor - nl - na;
            let off = legacy.offers[j];
            proof {
                let p = offer_listing_pairs(o.take(j as int));
                let q = offerer_pairs(o.take(j as int));
                assert(offer_listing_pairs(o.take(j as int + 1)) =~= p.push((off.listing_id, off.offer_id)));
                assert(offerer_pairs(o.take(j as int + 1)) =~= q.push((off.offerer.0, off.offer_id)));
                assert(p.push((off.listing_id, off.offer_id)).drop_last() =~= p);
                assert(q.push((off.offerer.0, off.offer_id)).drop_last() =~= q);
                assert(o.take(j as int + 1).drop_last() =~= o.take(j as int));
                lemma_keyed_ids_len(p, off.listing_id);
                lemma_appended_len(keyed_ids(p, off.listing_id));
                lemma_keyed_ids_len(q, off.offerer.0);
                lemma_appended_len(keyed_ids(q, off.offerer.0));
                lemma_pending_on_len(o.take(j as int), off.listing_id);
            }
            listing_offers.add(off.listing_id, off.offer_id);
            offerer_offers.add(off.offerer.0, off.offer_id);
            if off.status == OfferStatus::Pending {
                pending.bump(off.listing_id);
            }
            proof {
                let p = offer_listing_pairs(o.take(j as int));
                let q = offerer_pairs(o.take(j as int));
                assert forall|k: u64| #[trigger] listing_offers.ids(k) == appended(
                    keyed_ids(offer_listing_pairs(o.take(j as int + 1)), k),
                ) by {
                    if k == off.listing_id {
                        assert(keyed_ids(p, k).push(off.offer_id).drop_last() =~= keyed_ids(p, k));
                    }
                }
                assert forall|k: u64| #[trigger] offerer_offers.ids(k) == appended(
                    keyed_ids(offerer_pairs(o.take(j as int + 1)), k),
                ) by {
                    if k == off.offerer.0 {
                        assert(keyed_ids(q, k).push(off.offer_id).drop_last() =~= keyed_ids(q, k));
                    }
                }
                assert forall|k: u64| #[trigger] pending.count(k) == pending_on(o.take(j as int + 1), k) by {
                    assert(o.take(j as int + 1).last() == off);
                }
            }
        } else {
            let mut i: usize = 0;
            while i < legacy.active.len()
                invariant
                    i <= legacy.active@.len() < u32::MAX,
                    active.view() == appended(legacy.active@.take(i as int)),
                decreases legacy.active@.len() - i,
            {
                proof {
                    assert(legacy.active@.take(i as int + 1).drop_last() =~= legacy.active@.take(i as int));
                    assert(legacy.active@.take(i as int + 1).last() == legacy.active@[i as int]);
                    lemma_appended_len(legacy.active@.take(i as int));
                }
                active.append(legacy.active[i]);
                i = i + 1;
            }
            proof {
                assert(legacy.active@.take(i as int) =~= legacy.active@);
            }
        }
        *self = StoreMigration {
            legacy,
            cursor: cursor + 1,
            artist_listings,
            artist_auctions,
            listing_offers,
            offerer_offers,
            pending,
            active,
        };
    }
    /// Does the next `max` units of work (fewer at the end) and returns how
    /// many remain; the step that leaves none completes the migration. A
    /// completed migration is refused with `AlreadyMigrated`.
    pub fn step(&mut self, max: u32) -> (r: Result<u64, MarketplaceError>)
        ensures
            old(self).is_complete() ==> r == Err::<u64, MarketplaceError>(MarketplaceError::AlreadyMigrated)
                && final(self).moved() == old(self).moved(),
            !old(self).is_complete() ==> {
                let left = old(self).units() - old(self).moved();
                let n = if max < left { max as int } else { left };
                &&& r == Ok::<u64, MarketplaceError>((left - n) as u64)
                &&& final(self).moved() == old(self).moved() + n
            },
            final(self).listings() == old(self).listings(),
            final(self).auctions() == old(self).auctions(),
            final(self).offers() == old(self).offers(),
            final(self).legacy_active() == old(self).legacy_active(),
    {
        proof {
            use_type_invariant(&*self);
        }
        let units = self.legacy.listings.len() + self.legacy.auctions.len() + self.legacy.offers.len() + 1;
        if self.cursor == units {
            return Err(MarketplaceError::AlreadyMigrated);
        }
        let left = units - self.cursor;
        let n: usize = if (max as usize) < left {
            max as usize
        } else {
            left
        };
        let ghost start = *self;
        let mut done: usize = 0;
        while done < n
            invariant
                done <= n <= left,
                left == start.units() - start.moved(),
                self.moved() == start.moved() + done,
                self.listings() == start.listings(),
                self.auctions() == start.auctions(),
                self.offers() == start.offers(),
                self.legacy_active() == start.legacy_active(),
            decreases n - done,
        {
            self.unit();
            done = done + 1;
        }
        Ok((left - n) as u64)
    }

    /// Runs the whole migration at once; a completed migration is refused
    /// with `AlreadyMigrated`.
    pub fn run(&mut self) -> (r: Result<(), MarketplaceError>)
        ensures
            old(self).is_complete() ==> r == Err::<(), MarketplaceError>(MarketplaceError::AlreadyMigrated),
            !old(self).is_complete() ==> r is Ok,
            final(self).is_complete(),
            final(self).listings() == old(self).listings(),
            final(self).auctions() == old(self).auctions(),
            final(self).offers() == old(self).offers(),
            final(self).legacy_active() == old(self).legacy_active(),
    {
        proof {
            use_type_invariant(&*self);
        }
        match self.step(u32::MAX) {
            Ok(_) => Ok(()),
            Err(e) => Err(e),
        }
    }

    /// Whether the migration completed.
    pub fn complete(&self) -> (b: bool)
        ensures
            b == self.is_complete(),
    {
        proof {
            use_type_invariant(self);
        }
        self.cursor == self.legacy.listings.len() + self.legacy.auctions.len() + self.legacy.offers.len() + 1
    }

    /// The paged index of the listings of `artist`.
    pub fn artist_listings(&self, artist: AccountId) -> (r: Option<&PagedIndex>)
        ensures
            r matches Some(x) ==> x.view() == appended(keyed_ids(listing_pairs(self.listings_done()), artist.0)),
            r is None ==> appended(keyed_ids(listing_pairs(self.listings_done()), artist.0)) == Seq::<
                u64,
            >::empty(),
    {
        proof {
            use_type_invariant(self);
        }
        self.artist_listings.get(artist.0)
    }

    /// The paged index of the auctions of `creator`.
    pub fn artist_auctions(&self, creator: AccountId) -> (r: Option<&PagedIndex>)
        ensures
            r matches Some(x) ==> x.view() == appended(keyed_ids(auction_pairs(self.auctions_done()), creator.0)),
            r is None ==> appended(keyed_ids(auction_pairs(self.auctions_done()), creator.0)) == Seq::<
                u64,
            >::empty(),
    {
        proof {
            use_type_invariant(self);
        }
        self.artist_auctions.get(creator.0)
    }

    /// The paged index of the offers on listing `listing_id`.
    pub fn listing_offers(&self, listing_id: u64) -> (r: Option<&PagedIndex>)
        ensures
            r matches Some(x) ==> x.view() == appended(
                keyed_ids(offer_listing_pairs(self.offers_done()), listing_id),
            ),
            r is None ==> appended(keyed_ids(offer_listing_pairs(self.offers_done()), listing_id)) == Seq::<
                u64,
            >::empty(),
    {
        proof {
            use_type_invariant(self);
        }
        self.listing_offers.get(listing_id)
    }

    /// The paged index of the offers of `offerer`.
    pub fn offerer_offers(&self, offerer: AccountId) -> (r: Option<&PagedIndex>)
        ensures
            r matches Some(x) ==> x.view() == appended(keyed_ids(offerer_pairs(self.offers_done()), offerer.0)),
            r is None ==> appended(keyed_ids(offerer_pairs(self.offers_done()), offerer.0)) == Seq::<
                u64,
            >::empty(),
    {
        proof {
            use_type_invariant(self);
        }
        self.offerer_offers.get(offerer.0)
    }

    /// The number of pending offers on listing `listing_id`, rebuilt from
    /// the offers' statuses.
    pub fn pending_offer_count(&self, listing_id: u64) -> (r: u32)
        ensures
            r == pending_on(self.offers_done(), listing_id),
    {
        proof {
            use_type_invariant(self);
        }
        self.pending.get(listing_id)
    }

    /// The paged index of active listings: the legacy one carried over once
    /// the migration completed, empty before.
    pub fn active_index(&self) -> (r: &PagedIndex)
        ensures
            r.view() == (if self.is_complete() {
                appended(self.legacy_active())
            } else {
                Seq::<u64>::empty()
            }),
    {
        proof {
            use_type_invariant(self);
        }
        &self.active
    }
}

/// A completed migration has filed every listing, auction and offer.
pub proof fn lemma_complete_migration_files_everything(m: StoreMigration)
    requires
        m.is_complete(),
    ensures
        m.listings_done() == m.listings(),
        m.auctions_done() == m.auctions(),
        m.offers_done() == m.offers(),
{
    assert(m.listings().take(m.listings().len() as int) =~= m.listings());
    assert(m.auctions().take(m.auctions().len() as int) =~= m.auctions());
    assert(m.offers().take(m.offers().len() as int) =~= m.offers());
}

} // verus!
