use vstd::prelude::*;

use crate::types::AccountId;

verus! {

/// The largest history capacity an auction can be created with.
pub const MAX_BID_HISTORY_CAP: u32 = 200;

/// One accepted bid, as kept in an auction's history.
#[derive(Clone, Copy, Debug, PartialEq, Eq, Structural)]
pub struct BidRecord {
    pub bidder: AccountId,
    pub amount: i128,
    /// Ledger sequence at which the bid was placed.
    pub ledger: u32,
}

/// The most recent `cap` entries of `bids`, oldest first.
pub open spec fn retained(bids: Seq<BidRecord>, cap: nat) -> Seq<BidRecord> {
    if bids.len() <= cap {
        bids
    } else {
        bids.skip(bids.len() - cap)
    }
}

/// A capacity is acceptable when it lies in `1..=MAX_BID_HISTORY_CAP`.
pub open spec fn valid_cap(cap: u32) -> bool {
    1 <= cap <= MAX_BID_HISTORY_CAP
}

/// Whether `cap` is an acceptable bid-history capacity.
pub fn is_valid_bid_history_cap(cap: u32) -> (b: bool)
    ensures
        b == valid_cap(cap),
{
    1 <= cap && cap <= MAX_BID_HISTORY_CAP
}

/// The bounded bid history of one auction: a ring buffer that keeps the most
/// recent `cap` bids, oldest first. The capacity is fixed when the auction is
/// created, so a later change of the global setting never reshapes it.
pub struct BidHistory {
    cap: u32,
    records: Vec<BidRecord>,
}

impl BidHistory {
    #[verifier::type_invariant]
    spec fn inv(self) -> bool {
        &&& valid_cap(self.cap)
        &&& self.records@.len() <= self.cap
    }

    /// The capacity the history was created with.
    pub closed spec fn capacity(self) -> nat {
        self.cap as nat
    }

    /// The bids held, oldest first.
    pub closed spec fn view(self) -> Seq<BidRecord> {
        self.records@
    }

    /// An empty history that will keep at most `cap` bids.
    pub fn new(cap: u32) -> (h: BidHistory)
        requires
            valid_cap(cap),
        ensures
            h.capacity() == cap,
            h.view() == Seq::<BidRecord>::empty(),
    {
        BidHistory { cap, records: Vec::new() }
    }

    /// The capacity.
    pub fn cap(&self) -> (c: u32)
        ensures
            c == self.capacity(),
            valid_cap(c),
    {
        proof {
            use_type_invariant(self);
        }
        self.cap
    }

    /// The number of bids held.
    pub fn len(&self) -> (n: usize)
        ensures
            n == self.view().len(),
            n <= self.capacity(),
    {
        proof {
            use_type_invariant(self);
        }
        self.records.len()
    }

    /// The bids held, oldest first.
    pub fn records(&self) -> (r: &Vec<BidRecord>)
        ensures
            r@ == self.view(),
    {
        &self.records
    }

    /// Records a new bid; when the history is full the oldest bid is evicted.
    pub fn push(&mut self, record: BidRecord)
        ensures
            final(self).capacity() == old(self).capacity(),
            final(self).view() == retained(old(self).view().push(record), old(self).capacity()),
    {
        proof {
            use_type_invariant(&*self);
        }
        let mut records: Vec<BidRecord> = Vec::new();
        std::mem::swap(&mut records, &mut self.records);
        let ghost before = records@;
        if records.len() >= self.cap as usize {
            records.remove(0);
        }
        records.push(record);
        proof {
            let s = before.push(record);
            if before.len() >= self.cap {
                assert(records@ =~= s.skip(s.len() - self.cap));
            } else {
                assert(records@ =~= s);
            }
        }
        self.records = records;
    }
}

/// Keeping the last `cap` of the bids and then adding a bid is the same as
/// keeping the last `cap` of all bids: the history always holds exactly the
/// most recent `cap` bids ever placed, oldest first.
pub proof fn lemma_retained_push(bids: Seq<BidRecord>, record: BidRecord, cap: nat)
    requires
        cap >= 1,
    ensures
        retained(retained(bids, cap).push(record), cap) == retained(bids.push(record), cap),
{
    let r = retained(bids, cap);
    let lhs = retained(r.push(record), cap);
    let rhs = retained(bids.push(record), cap);
    assert(lhs =~= rhs);
}

/// A history never holds more than its capacity, and holds every bid while
/// fewer than `cap` were placed.
pub proof fn lemma_retained_len(bids: Seq<BidRecord>, cap: nat)
    ensures
        retained(bids, cap).len() == if bids.len() <= cap {
            bids.len()
        } else {
            cap
        },
{
}

} // verus!
