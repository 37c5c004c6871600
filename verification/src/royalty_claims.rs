//! Royalty claim records: one per payee of a settlement, written when the
//! settlement happens and marked claimed when the payee is paid, so that no
//! payee is ever paid twice for one settlement.
use vstd::prelude::*;

use crate::errors::MarketplaceError;
use crate::settlement::Settlement;
use crate::types::{AccountId, Recipient};

verus! {

/// One pending or completed royalty claim of one payee.
#[derive(Clone, Copy, Debug, PartialEq, Eq, Structural)]
pub struct RoyaltyClaimRecord {
    pub settlement_id: u64,
    /// True for a fixed-price sale or accepted offer, false for an auction.
    pub is_listing: bool,
    pub recipient: AccountId,
    pub token: AccountId,
    pub amount: i128,
    pub claimed: bool,
    /// Ledger sequence at which the record was written.
    pub created_at: u32,
    /// Ledger sequence at which the claim was redeemed.
    pub claimed_at: Option<u32>,
}

/// What identifies a claim: the settlement, its kind and the payee.
#[derive(Clone, Copy, Debug, PartialEq, Eq, Structural)]
pub struct ClaimKey {
    pub settlement_id: u64,
    pub is_listing: bool,
    pub recipient: AccountId,
}

/// The key of a record.
pub open spec fn key_of(r: RoyaltyClaimRecord) -> ClaimKey {
    ClaimKey { settlement_id: r.settlement_id, is_listing: r.is_listing, recipient: r.recipient }
}

/// The record at index `i` of `s` has key `k`.
pub open spec fn keyed_at(s: Seq<RoyaltyClaimRecord>, k: ClaimKey, i: int) -> bool {
    0 <= i < s.len() && key_of(s[i]) == k
}

/// No key occurs twice.
pub open spec fn distinct_keys(s: Seq<RoyaltyClaimRecord>) -> bool {
    forall|i: int, j: int| 0 <= i < j < s.len() ==> key_of(#[trigger] s[i]) != key_of(#[trigger] s[j])
}

/// The record stored under `k`, if any.
pub open spec fn claim_of(s: Seq<RoyaltyClaimRecord>, k: ClaimKey) -> Option<RoyaltyClaimRecord> {
    if exists|i: int| #[trigger] keyed_at(s, k, i) {
        Some(s[choose|i: int| #[trigger] keyed_at(s, k, i)])
    } else {
        None
    }
}

/// The outcome of claiming the record `rec` (absent, claimed or pending).
pub open spec fn claim_outcome(rec: Option<RoyaltyClaimRecord>) -> Result<i128, MarketplaceError> {
    match rec {
        None => Err(MarketplaceError::RoyaltyClaimNotFound),
        Some(r) => if r.claimed {
            Err(MarketplaceError::RoyaltyAlreadyClaimed)
        } else {
            Ok(r.amount)
        },
    }
}

/// The record after it was redeemed at ledger `ledger`.
pub open spec fn redeemed(r: RoyaltyClaimRecord, ledger: u32) -> RoyaltyClaimRecord {
    RoyaltyClaimRecord { claimed: true, claimed_at: Some(ledger), ..r }
}

proof fn lemma_claim_of_at(s: Seq<RoyaltyClaimRecord>, k: ClaimKey, i: int)
    requires
        distinct_keys(s),
        keyed_at(s, k, i),
    ensures
        claim_of(s, k) == Some(s[i]),
{
    let j = choose|j: int| #[trigger] keyed_at(s, k, j);
    if j != i {
        if j < i {
            assert(key_of(s[j]) != key_of(s[i]));
        } else {
            assert(key_of(s[i]) != key_of(s[j]));
        }
    }
}

/// Replacing the record at `i` by one with the same key keeps the keys
/// distinct, stores the new record under that key and leaves every other
/// key's record as it was.
proof fn lemma_update_same_key(s: Seq<RoyaltyClaimRecord>, i: int, r: RoyaltyClaimRecord)
    requires
        distinct_keys(s),
        0 <= i < s.len(),
        key_of(r) == key_of(s[i]),
    ensures
        distinct_keys(s.update(i, r)),
        claim_of(s.update(i, r), key_of(r)) == Some(r),
        forall|k: ClaimKey| k != key_of(r) ==> #[trigger] claim_of(s.update(i, r), k) == claim_of(s, k),
{
    let t = s.update(i, r);
    assert forall|a: int, b: int| 0 <= a < b < t.len() implies key_of(#[trigger] t[a]) != key_of(
        #[trigger] t[b],
    ) by {
        assert(key_of(s[a]) != key_of(s[b]));
    }
    lemma_claim_of_at(t, key_of(r), i);
    assert forall|k: ClaimKey| k != key_of(r) implies #[trigger] claim_of(t, k) == claim_of(s, k) by {
        if exists|j: int| #[trigger] keyed_at(s, k, j) {
            let j = choose|j: int| #[trigger] keyed_at(s, k, j);
            assert(j != i);
            assert(keyed_at(t, k, j));
            lemma_claim_of_at(s, k, j);
            lemma_claim_of_at(t, k, j);
        } else {
            assert forall|j: int| !#[trigger] keyed_at(t, k, j) by {
                if keyed_at(t, k, j) {
                    assert(keyed_at(s, k, j));
                }
            }
        }
    }
}

/// Appending a record under a fresh key keeps the keys distinct, stores it
/// under its key and leaves every other key's record as it was.
proof fn lemma_push_fresh_key(s: Seq<RoyaltyClaimRecord>, r: RoyaltyClaimRecord)
    requires
        distinct_keys(s),
        claim_of(s, key_of(r)) is None,
    ensures
        distinct_keys(s.push(r)),
        claim_of(s.push(r), key_of(r)) == Some(r),
        forall|k: ClaimKey| k != key_of(r) ==> #[trigger] claim_of(s.push(r), k) == claim_of(s, k),
{
    let t = s.push(r);
    assert forall|a: int, b: int| 0 <= a < b < t.len() implies key_of(#[trigger] t[a]) != key_of(
        #[trigger] t[b],
    ) by {
        if b == s.len() {
            assert(!keyed_at(s, key_of(r), a));
        }
    }
    lemma_claim_of_at(t, key_of(r), s.len() as int);
    assert forall|k: ClaimKey| k != key_of(r) implies #[trigger] claim_of(t, k) == claim_of(s, k) by {
        if exists|j: int| #[trigger] keyed_at(s, k, j) {
            let j = choose|j: int| #[trigger] keyed_at(s, k, j);
            assert(keyed_at(t, k, j));
            lemma_claim_of_at(s, k, j);
            lemma_claim_of_at(t, k, j);
        } else {
            assert forall|j: int| !#[trigger] keyed_at(t, k, j) by {
                if keyed_at(t, k, j) && j < s.len() {
                    assert(keyed_at(s, k, j));
                }
            }
        }
    }
}

/// The claim records of all settlements.
pub struct RoyaltyClaims {
    records: Vec<RoyaltyClaimRecord>,
}

impl RoyaltyClaims {
    #[verifier::type_invariant]
    spec fn inv(self) -> bool {
        distinct_keys(self.records@)
    }

    /// The records, in the order they were first written.
    pub closed spec fn view(self) -> Seq<RoyaltyClaimRecord> {
        self.records@
    }

    /// The record stored under `k`, if any.
    pub open spec fn lookup(self, k: ClaimKey) -> Option<RoyaltyClaimRecord> {
        claim_of(self.view(), k)
    }

    /// No record.
    pub fn new() -> (r: RoyaltyClaims)
        ensures
            forall|k: ClaimKey| #[trigger] r.lookup(k) is None,
    {
        RoyaltyClaims { records: Vec::new() }
    }

    fn position(&self, k: ClaimKey) -> (r: Option<usize>)
        ensures
            r matches Some(i) ==> keyed_at(self.view(), k, i as int),
            r is None ==> forall|i: int| !#[trigger] keyed_at(self.view(), k, i),
    {
        let mut i: usize = 0;
        while i < self.records.len()
            invariant
                i <= self.records@.len(),
                forall|j: int| 0 <= j < i ==> !#[trigger] keyed_at(self.records@, k, j),
            decreases self.records@.len() - i,
        {
            let r = self.records[i];
            if r.settlement_id == k.settlement_id && r.is_listing == k.is_listing && r.recipient
                == k.recipient {
                return Some(i);
            }
            i = i + 1;
        }
        None
    }

    /// The record stored under `k`, if any.
    pub fn get(&self, k: ClaimKey) -> (r: Option<RoyaltyClaimRecord>)
        ensures
            r == self.lookup(k),
    {
        proof {
            use_type_invariant(self);
        }
        match self.position(k) {
            Some(i) => {
                proof {
                    lemma_claim_of_at(self.records@, k, i as int);
                }
                Some(self.records[i])
            },
            None => None,
        }
    }

    /// Writes `rec` under its key, replacing a record stored there before.
    pub fn record(&mut self, rec: RoyaltyClaimRecord)
        ensures
            final(self).lookup(key_of(rec)) == Some(rec),
            forall|k: ClaimKey| k != key_of(rec) ==> #[trigger] final(self).lookup(k) == old(self).lookup(k),
    {
        proof {
            use_type_invariant(&*self);
        }
        let k = ClaimKey { settlement_id: rec.settlement_id, is_listing: rec.is_listing, recipient: rec.recipient };
        let found = self.position(k);
        let mut records: Vec<RoyaltyClaimRecord> = Vec::new();
        std::mem::swap(&mut records, &mut self.records);
        let ghost before = records@;
        match found {
            Some(i) => {
                proof {
                    lemma_update_same_key(before, i as int, rec);
                }
                records.set(i, rec);
            },
            None => {
                proof {
                    lemma_push_fresh_key(before, rec);
                }
                records.push(rec);
            },
        }
        self.records = records;
    }

    /// Redeems the claim stored under `k` at ledger `ledger`: returns the
    /// amount owed and marks the record claimed. A missing record is refused
    /// with `RoyaltyClaimNotFound`, a redeemed one with
    /// `RoyaltyAlreadyClaimed`; a refused claim changes nothing.
    pub fn claim(&mut self, k: ClaimKey, ledger: u32) -> (r: Result<i128, MarketplaceError>)
        ensures
            r == claim_outcome(old(self).lookup(k)),
            r is Ok ==> final(self).lookup(k) == Some(redeemed(old(self).lookup(k)->Some_0, ledger)),
            r is Err ==> final(self).view() == old(self).view(),
            forall|other: ClaimKey| other != k ==> #[trigger] final(self).lookup(other) == old(self).lookup(other),
    {
        proof {
            use_type_invariant(&*self);
        }
        match self.position(k) {
            None => Err(MarketplaceError::RoyaltyClaimNotFound),
            Some(i) => {
                proof {
                    lemma_claim_of_at(self.records@, k, i as int);
                }
                let rec = self.records[i];
                if rec.claimed {
                    return Err(MarketplaceError::RoyaltyAlreadyClaimed);
                }
                let done = RoyaltyClaimRecord { claimed: true, claimed_at: Some(ledger), ..rec };
                let mut records: Vec<RoyaltyClaimRecord> = Vec::new();
                std::mem::swap(&mut records, &mut self.records);
                proof {
                    lemma_update_same_key(records@, i as int, done);
                }
                records.set(i, done);
                self.records = records;
                Ok(rec.amount)
            },
        }
    }
}

/// A payee is paid at most once per settlement: once a claim has been
/// redeemed, claiming it again is refused.
pub proof fn lemma_claim_pays_once(rec: RoyaltyClaimRecord, ledger: u32)
    ensures
        claim_outcome(Some(redeemed(rec, ledger))) == Err::<i128, MarketplaceError>(
            MarketplaceError::RoyaltyAlreadyClaimed,
        ),
        key_of(redeemed(rec, ledger)) == key_of(rec),
        redeemed(rec, ledger).amount == rec.amount,
{
}

/// The claim record of one payee of a settlement.
pub open spec fn payee_record(
    settlement_id: u64,
    is_listing: bool,
    token: AccountId,
    recipient: AccountId,
    amount: i128,
    ledger: u32,
    paid: bool,
) -> RoyaltyClaimRecord {
    RoyaltyClaimRecord {
        settlement_id,
        is_listing,
        recipient,
        token,
        amount,
        claimed: paid,
        created_at: ledger,
        claimed_at: if paid {
            Some(ledger)
        } else {
            None
        },
    }
}

/// The claim records a settlement writes: the collection royalty receiver
/// first (when a royalty was due), then each recipient with its payout.
/// `paid` says whether the transfers were made at settlement time, in which
/// case the records are written already claimed.
pub fn settlement_claims(
    settlement_id: u64,
    is_listing: bool,
    token: AccountId,
    recipients: &Vec<Recipient>,
    st: &Settlement,
    ledger: u32,
    paid: bool,
) -> (r: Vec<RoyaltyClaimRecord>)
    requires
        st.payouts@.len() == recipients@.len(),
    ensures
        ({
            let off: int = if st.royalty_receiver is Some { 1 } else { 0 };
            &&& r@.len() == recipients@.len() + off
            &&& (st.royalty_receiver matches Some(rr) ==> r@[0] == payee_record(
                settlement_id,
                is_listing,
                token,
                rr,
                st.royalty_amount,
                ledger,
                paid,
            ))
            &&& forall|i: int|
                0 <= i < recipients@.len() ==> #[trigger] r@[i + off] == payee_record(
                    settlement_id,
                    is_listing,
                    token,
                    recipients@[i].address,
                    st.payouts@[i],
                    ledger,
                    paid,
                )
        }),
{
    let claimed_at = if paid {
        Some(ledger)
    } else {
        None
    };
    let mut r: Vec<RoyaltyClaimRecord> = Vec::new();
    match st.royalty_receiver {
        Some(rr) => {
            r.push(
                RoyaltyClaimRecord {
                    settlement_id,
                    is_listing,
                    recipient: rr,
                    token,
                    amount: st.royalty_amount,
                    claimed: paid,
                    created_at: ledger,
                    claimed_at,
                },
            );
        },
        None => {},
    }
    let ghost off: int = if st.royalty_receiver is Some { 1 } else { 0 };
    let mut i: usize = 0;
    while i < recipients.len()
        invariant
            i <= recipients@.len() == st.payouts@.len(),
            off == (if st.royalty_receiver is Some { 1int } else { 0int }),
            r@.len() == i + off,
            claimed_at == (if paid { Some(ledger) } else { None::<u32> }),
            st.royalty_receiver matches Some(rr) ==> r@[0] == payee_record(
                settlement_id,
                is_listing,
                token,
                rr,
                st.royalty_amount,
                ledger,
                paid,
            ),
            forall|j: int|
                0 <= j < i ==> #[trigger] r@[j + off] == payee_record(
                    settlement_id,
                    is_listing,
                    token,
                    recipients@[j].address,
                    st.payouts@[j],
                    ledger,
                    paid,
                ),
        decreases recipients@.len() - i,
    {
        let ghost prev = r@;
        r.push(
            RoyaltyClaimRecord {
                settlement_id,
                is_listing,
                recipient: recipients[i].address,
                token,
                amount: st.payouts[i],
                claimed: paid,
                created_at: ledger,
                claimed_at,
            },
        );
        proof {
            assert forall|j: int| 0 <= j < i + 1 implies #[trigger] r@[j + off] == payee_record(
                settlement_id,
                is_listing,
                token,
                recipients@[j].address,
                st.payouts@[j],
                ledger,
                paid,
            ) by {
                if j < i {
                    assert(r@[j + off] == prev[j + off]);
                }
            }
        }
        i = i + 1;
    }
    r
}

} // verus!
