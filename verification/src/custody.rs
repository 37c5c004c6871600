use vstd::prelude::*;

use crate::errors::MarketplaceError;
use crate::types::{AccountId, Listing, ListingStatus};

verus! {

/// What a token in custody backs.
#[derive(Clone, Copy, Debug, PartialEq, Eq, Structural)]
pub enum EscrowPurpose {
    Listing(u64),
    Auction(u64),
}

/// A token held by the marketplace.
#[derive(Clone, Copy, Debug, PartialEq, Eq, Structural)]
pub struct EscrowRecord {
    pub collection: AccountId,
    pub token_id: u64,
    /// Who handed the token over, and gets it back on cancellation.
    pub depositor: AccountId,
    pub purpose: EscrowPurpose,
}

/// The record for `(collection, token_id)` occurs at index `i` of `s`.
pub open spec fn holds_at(s: Seq<EscrowRecord>, collection: AccountId, token_id: u64, i: int) -> bool {
    0 <= i < s.len() && s[i].collection == collection && s[i].token_id == token_id
}

/// The record of `(collection, token_id)`, if that token is in custody.
pub open spec fn record_of(s: Seq<EscrowRecord>, collection: AccountId, token_id: u64) -> Option<
    EscrowRecord,
> {
    if exists|i: int| #[trigger] holds_at(s, collection, token_id, i) {
        Some(s[choose|i: int| #[trigger] holds_at(s, collection, token_id, i)])
    } else {
        None
    }
}

/// No token is held twice.
pub open spec fn held_once(s: Seq<EscrowRecord>) -> bool {
    forall|i: int, j: int|
        0 <= i < j < s.len() ==> !(#[trigger] s[i].collection == #[trigger] s[j].collection
            && s[i].token_id == s[j].token_id)
}

/// The tokens in marketplace custody: the double-listing guard.
pub struct EscrowLedger {
    records: Vec<EscrowRecord>,
}

proof fn lemma_record_of_at(s: Seq<EscrowRecord>, collection: AccountId, token_id: u64, i: int)
    requires
        held_once(s),
        holds_at(s, collection, token_id, i),
    ensures
        record_of(s, collection, token_id) == Some(s[i]),
{
    let k = choose|k: int| #[trigger] holds_at(s, collection, token_id, k);
    if k != i {
        if k < i {
            assert(!(s[k].collection == s[i].collection && s[k].token_id == s[i].token_id));
        } else {
            assert(!(s[i].collection == s[k].collection && s[i].token_id == s[k].token_id));
        }
    }
}

impl EscrowLedger {
    #[verifier::type_invariant]
    spec fn inv(self) -> bool {
        held_once(self.records@)
    }

    /// The records, oldest first.
    pub closed spec fn view(self) -> Seq<EscrowRecord> {
        self.records@
    }

    /// Nothing in custody.
    pub fn new() -> (r: EscrowLedger)
        ensures
            r.view() == Seq::<EscrowRecord>::empty(),
            held_once(r.view()),
    {
        EscrowLedger { records: Vec::new() }
    }

    fn position(&self, collection: AccountId, token_id: u64) -> (r: Option<usize>)
        ensures
            r matches Some(i) ==> holds_at(self.view(), collection, token_id, i as int),
            r is None ==> forall|i: int| !#[trigger] holds_at(self.view(), collection, token_id, i),
    {
        let mut i: usize = 0;
        while i < self.records.len()
            invariant
                i <= self.records@.len(),
                forall|k: int| 0 <= k < i ==> !#[trigger] holds_at(self.records@, collection, token_id, k),
            decreases self.records@.len() - i,
        {
            if self.records[i].collection == collection && self.records[i].token_id == token_id {
                return Some(i);
            }
            i = i + 1;
        }
        None
    }

    /// The custody record of `(collection, token_id)`, if held.
    pub fn get(&self, collection: AccountId, token_id: u64) -> (r: Option<EscrowRecord>)
        ensures
            r == record_of(self.view(), collection, token_id),
    {
        proof {
            use_type_invariant(self);
        }
        match self.position(collection, token_id) {
            Some(i) => {
                proof {
                    lemma_record_of_at(self.records@, collection, token_id, i as int);
                }
                Some(self.records[i])
            },
            None => None,
        }
    }

    /// Takes `(collection, token_id)` into custody for `purpose`.
    /// `current_owner` is who the collection reports as owner; it must be the
    /// depositor, and the token must not already be held.
    pub fn escrow(
        &mut self,
        collection: AccountId,
        token_id: u64,
        current_owner: AccountId,
        depositor: AccountId,
        purpose: EscrowPurpose,
    ) -> (r: Result<(), MarketplaceError>)
        ensures
            current_owner != depositor ==> r == Err::<(), MarketplaceError>(
                MarketplaceError::NotTokenOwner,
            ),
            current_owner == depositor && record_of(old(self).view(), collection, token_id) is Some
                ==> r == Err::<(), MarketplaceError>(MarketplaceError::TokenAlreadyEscrowed),
            current_owner == depositor && record_of(old(self).view(), collection, token_id) is None ==> r is Ok,
            r is Err ==> final(self).view() == old(self).view(),
            held_once(final(self).view()),
            r is Ok ==> current_owner == depositor && record_of(old(self).view(), collection, token_id)
                is None && final(self).view() == old(self).view().push(
                EscrowRecord { collection, token_id, depositor, purpose },
            ),
    {
        proof {
            use_type_invariant(&*self);
        }
        if current_owner != depositor {
            return Err(MarketplaceError::NotTokenOwner);
        }
        match self.position(collection, token_id) {
            Some(i) => {
                proof {
                    lemma_record_of_at(self.records@, collection, token_id, i as int);
                }
                Err(MarketplaceError::TokenAlreadyEscrowed)
            },
            None => {
                let mut records: Vec<EscrowRecord> = Vec::new();
                std::mem::swap(&mut records, &mut self.records);
                let ghost before = records@;
                records.push(EscrowRecord { collection, token_id, depositor, purpose });
                proof {
                    assert forall|i: int, j: int| 0 <= i < j < records@.len() implies !(
                    #[trigger] records@[i].collection == #[trigger] records@[j].collection
                        && records@[i].token_id == records@[j].token_id) by {
                        if j == before.len() {
                            assert(!holds_at(before, collection, token_id, i));
                        }
                    }
                }
                self.records = records;
                Ok(())
            },
        }
    }

    /// Releases `(collection, token_id)` from custody, returning its record;
    /// a token not held gives `None` and changes nothing.
    pub fn release(&mut self, collection: AccountId, token_id: u64) -> (r: Option<EscrowRecord>)
        ensures
            r == record_of(old(self).view(), collection, token_id),
            r is None ==> final(self).view() == old(self).view(),
            held_once(final(self).view()),
            record_of(final(self).view(), collection, token_id) is None,
            forall|c: AccountId, t: u64|
                !(c == collection && t == token_id) ==> record_of(final(self).view(), c, t)
                    == record_of(old(self).view(), c, t),
    {
        proof {
            use_type_invariant(&*self);
        }
        match self.position(collection, token_id) {
            None => {
                proof {
                    assert forall|c: AccountId, t: u64| true implies record_of(self.records@, c, t)
                        == record_of(self.records@, c, t) by {}
                }
                None
            },
            Some(i) => {
                proof {
                    lemma_record_of_at(self.records@, collection, token_id, i as int);
                }
                let mut records: Vec<EscrowRecord> = Vec::new();
                std::mem::swap(&mut records, &mut self.records);
                let ghost before = records@;
                let rec = records.remove(i);
                proof {
                    assert(held_once(records@)) by {
                        assert forall|a: int, b: int| 0 <= a < b < records@.len() implies !(
                        #[trigger] records@[a].collection == #[trigger] records@[b].collection
                            && records@[a].token_id == records@[b].token_id) by {
                            let a0 = if a < i { a } else { a + 1 };
                            let b0 = if b < i { b } else { b + 1 };
                            assert(records@[a] == before[a0]);
                            assert(records@[b] == before[b0]);
                        }
                    }
                    assert forall|k: int| !#[trigger] holds_at(records@, collection, token_id, k) by {
                        if holds_at(records@, collection, token_id, k) {
                            let k0 = if k < i { k } else { k + 1 };
                            assert(records@[k] == before[k0]);
                            assert(holds_at(before, collection, token_id, k0));
                            if k0 < i {
                                assert(!(before[k0].collection == before[i as int].collection
                                    && before[k0].token_id == before[i as int].token_id));
                            } else {
                                assert(!(before[i as int].collection == before[k0].collection
                                    && before[i as int].token_id == before[k0].token_id));
                            }
                        }
                    }
                    assert forall|c: AccountId, t: u64|
                        !(c == collection && t == token_id) implies record_of(records@, c, t)
                        == record_of(before, c, t) by {
                        if exists|k: int| #[trigger] holds_at(before, c, t, k) {
                            let k = choose|k: int| #[trigger] holds_at(before, c, t, k);
                            assert(k != i);
                            let k1 = if k < i { k } else { k - 1 };
                            assert(records@[k1] == before[k]);
                            assert(holds_at(records@, c, t, k1));
                            lemma_record_of_at(before, c, t, k);
                            lemma_record_of_at(records@, c, t, k1);
                        } else {
                            assert forall|k: int| !#[trigger] holds_at(records@, c, t, k) by {
                                if holds_at(records@, c, t, k) {
                                    let k0 = if k < i { k } else { k + 1 };
                                    assert(records@[k] == before[k0]);
                                    assert(holds_at(before, c, t, k0));
                                }
                            }
                        }
                    }
                }
                self.records = records;
                Some(rec)
            },
        }
    }
}

/// The outcome of `caller` cancelling a listing of `artist` in `status`.
pub open spec fn cancel_listing_verdict(status: ListingStatus, artist: AccountId, caller: AccountId) -> Result<
    (),
    MarketplaceError,
> {
    if caller != artist {
        Err(MarketplaceError::Unauthorized)
    } else if status != ListingStatus::Active {
        Err(MarketplaceError::ListingNotActive)
    } else {
        Ok(())
    }
}

/// Checks a cancellation: only the listing's artist may cancel, and only an
/// active listing.
pub fn check_cancel_listing(listing: &Listing, caller: AccountId) -> (r: Result<(), MarketplaceError>)
    ensures
        r == cancel_listing_verdict(listing.status, listing.artist, caller),
{
    if caller != listing.artist {
        return Err(MarketplaceError::Unauthorized);
    }
    if listing.status != ListingStatus::Active {
        return Err(MarketplaceError::ListingNotActive);
    }
    Ok(())
}

/// Releasing a token gives back exactly the record that escrowing it
/// stored: the depositor to return it to and what it backed.
pub proof fn lemma_escrow_then_release(
    s: Seq<EscrowRecord>,
    collection: AccountId,
    token_id: u64,
    depositor: AccountId,
    purpose: EscrowPurpose,
)
    requires
        held_once(s),
        record_of(s, collection, token_id) is None,
    ensures
        ({
            let rec = EscrowRecord { collection, token_id, depositor, purpose };
            &&& held_once(s.push(rec))
            &&& record_of(s.push(rec), collection, token_id) == Some(rec)
        }),
{
    let rec = EscrowRecord { collection, token_id, depositor, purpose };
    let s2 = s.push(rec);
    assert forall|i: int, j: int| 0 <= i < j < s2.len() implies !(#[trigger] s2[i].collection
        == #[trigger] s2[j].collection && s2[i].token_id == s2[j].token_id) by {
        if j == s.len() {
            assert(!holds_at(s, collection, token_id, i));
        }
    }
    assert(holds_at(s2, collection, token_id, s.len() as int));
    lemma_record_of_at(s2, collection, token_id, s.len() as int);
}

/// A record found for a token is that token's record.
pub proof fn lemma_record_of_is_for(s: Seq<EscrowRecord>, collection: AccountId, token_id: u64)
    ensures
        record_of(s, collection, token_id) matches Some(r) ==> r.collection == collection && r.token_id
            == token_id,
{
    if exists|i: int| #[trigger] holds_at(s, collection, token_id, i) {
        let i = choose|i: int| #[trigger] holds_at(s, collection, token_id, i);
        assert(holds_at(s, collection, token_id, i));
    }
}

/// Taking one token into custody leaves the records of the other tokens as
/// they were.
pub proof fn lemma_record_of_push_other(s: Seq<EscrowRecord>, rec: EscrowRecord, collection: AccountId, token_id: u64)
    requires
        held_once(s.push(rec)),
        !(collection == rec.collection && token_id == rec.token_id),
    ensures
        record_of(s.push(rec), collection, token_id) == record_of(s, collection, token_id),
{
    let s2 = s.push(rec);
    if exists|i: int| #[trigger] holds_at(s, collection, token_id, i) {
        let i = choose|i: int| #[trigger] holds_at(s, collection, token_id, i);
        assert(held_once(s)) by {
            assert forall|a: int, b: int| 0 <= a < b < s.len() implies !(#[trigger] s[a].collection
                == #[trigger] s[b].collection && s[a].token_id == s[b].token_id) by {
                assert(s2[a] == s[a] && s2[b] == s[b]);
            }
        }
        assert(holds_at(s2, collection, token_id, i));
        lemma_record_of_at(s, collection, token_id, i);
        lemma_record_of_at(s2, collection, token_id, i);
    } else {
        assert forall|i: int| !#[trigger] holds_at(s2, collection, token_id, i) by {
            if holds_at(s2, collection, token_id, i) && i < s.len() {
                assert(holds_at(s, collection, token_id, i));
            }
        }
    }
}

} // verus!
