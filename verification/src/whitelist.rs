use vstd::prelude::*;

use crate::errors::MarketplaceError;
use crate::types::AccountId;

verus! {

/// The registry record of one payment token. Records are never deleted:
/// removal only clears `active`, so the history stays queryable.
#[derive(Clone, Copy, Debug, PartialEq, Eq, Structural)]
pub struct TokenEntry {
    pub token: AccountId,
    /// Who first registered the token.
    pub added_by: AccountId,
    /// Ledger timestamp of the first registration.
    pub added_at: u64,
    pub active: bool,
}

/// Where a token stands in the registry.
#[derive(Clone, Copy, Debug, PartialEq, Eq, Structural)]
pub enum TokenWhitelistState {
    NeverAdded,
    Active,
    Removed,
}

/// Everything the registry says about one token.
#[derive(Clone, Copy, Debug, PartialEq, Eq, Structural)]
pub struct TokenPolicy {
    pub state: TokenWhitelistState,
    /// Whether listings, auctions and offers may use the token.
    pub is_accepted: bool,
    pub entry: Option<TokenEntry>,
    /// Tokens ever registered, removed ones included.
    pub total_registered: u64,
}

/// Index of the record of `token` in `s`, or -1.
pub open spec fn find(s: Seq<TokenEntry>, token: AccountId) -> int
    decreases s.len(),
{
    if s.len() == 0 {
        -1
    } else if s.last().token == token {
        s.len() - 1
    } else {
        find(s.drop_last(), token)
    }
}

/// No token has two records.
pub open spec fn unique_tokens(s: Seq<TokenEntry>) -> bool {
    forall|i: int, j: int| 0 <= i < j < s.len() ==> #[trigger] s[i].token != #[trigger] s[j].token
}

/// The record of `token`, if it was ever registered.
pub open spec fn entry_of(s: Seq<TokenEntry>, token: AccountId) -> Option<TokenEntry> {
    if find(s, token) >= 0 {
        Some(s[find(s, token)])
    } else {
        None
    }
}

/// The tokens currently accepted, in registration order.
pub open spec fn active_tokens(s: Seq<TokenEntry>) -> Seq<AccountId>
    decreases s.len(),
{
    if s.len() == 0 {
        Seq::empty()
    } else if s.last().active {
        active_tokens(s.drop_last()).push(s.last().token)
    } else {
        active_tokens(s.drop_last())
    }
}

/// A token is accepted when it is registered and active, or when no token was
/// ever registered (then every token passes).
pub open spec fn accepts(s: Seq<TokenEntry>, token: AccountId) -> bool {
    match entry_of(s, token) {
        Some(e) => e.active,
        None => s.len() == 0,
    }
}

/// The outcome of checking `token` as the payment asset of something sold
/// from `collection` by the marketplace `contract`.
pub open spec fn payment_token_verdict(
    s: Seq<TokenEntry>,
    token: AccountId,
    collection: AccountId,
    contract: AccountId,
) -> Result<(), MarketplaceError> {
    if token == collection || token == contract || !accepts(s, token) {
        Err(MarketplaceError::TokenNotWhitelisted)
    } else {
        Ok(())
    }
}

proof fn lemma_find_bounds(s: Seq<TokenEntry>, token: AccountId)
    ensures
        -1 <= find(s, token) < s.len(),
        find(s, token) >= 0 ==> s[find(s, token)].token == token,
        find(s, token) == -1 <==> forall|i: int| 0 <= i < s.len() ==> #[trigger] s[i].token != token,
        forall|i: int| 0 <= i < s.len() && #[trigger] s[i].token == token ==> i <= find(s, token),
    decreases s.len(),
{
    if s.len() > 0 {
        lemma_find_bounds(s.drop_last(), token);
        if s.last().token != token {
            assert forall|i: int| 0 <= i < s.len() - 1 implies #[trigger] s[i].token == s.drop_last()[i].token by {}
        }
    }
}

proof fn lemma_find_unique(s: Seq<TokenEntry>, token: AccountId, i: int)
    requires
        unique_tokens(s),
        0 <= i < s.len(),
        s[i].token == token,
    ensures
        find(s, token) == i,
{
    lemma_find_bounds(s, token);
    let k = find(s, token);
    if k != i {
        if k < i {
            assert(s[k].token != s[i].token);
        } else {
            assert(s[i].token != s[k].token);
        }
    }
}

/// The registry of payment tokens.
pub struct TokenRegistry {
    entries: Vec<TokenEntry>,
}

impl TokenRegistry {
    #[verifier::type_invariant]
    spec fn inv(self) -> bool {
        &&& unique_tokens(self.entries@)
        &&& self.entries@.len() <= u64::MAX
    }

    /// The records, in registration order.
    pub closed spec fn view(self) -> Seq<TokenEntry> {
        self.entries@
    }

    /// An empty registry: every token passes until one is registered.
    pub fn new() -> (r: TokenRegistry)
        ensures
            r.view() == Seq::<TokenEntry>::empty(),
    {
        TokenRegistry { entries: Vec::new() }
    }

    fn index_of(&self, token: AccountId) -> (r: Option<usize>)
        ensures
            r is None <==> find(self.view(), token) == -1,
            r matches Some(i) ==> i == find(self.view(), token),
    {
        proof {
            lemma_find_bounds(self.entries@, token);
        }
        let mut i: usize = self.entries.len();
        while i > 0
            invariant
                i <= self.entries@.len(),
                find(self.entries@, token) < i,
                forall|k: int| i <= k < self.entries@.len() ==> #[trigger] self.entries@[k].token != token,
                -1 <= find(self.entries@, token) < self.entries@.len(),
                find(self.entries@, token) >= 0 ==> self.entries@[find(self.entries@, token)].token == token,
                find(self.entries@, token) == -1 <==> forall|k: int|
                    0 <= k < self.entries@.len() ==> #[trigger] self.entries@[k].token != token,
            decreases i,
        {
            i = i - 1;
            if self.entries[i].token == token {
                proof {
                    lemma_find_bounds(self.entries@, token);
                }
                return Some(i);
            }
        }
        None
    }

    /// Registers `token` (by `caller`, at `now`). A new token gets a fresh
    /// active record; a removed token is reactivated with its original
    /// `added_at` and `added_by`; an active token is left as it is.
    pub fn add(&mut self, token: AccountId, caller: AccountId, now: u64)
        requires
            old(self).view().len() < u64::MAX,
        ensures
            find(old(self).view(), token) == -1 ==> final(self).view() == old(self).view().push(
                TokenEntry { token, added_by: caller, added_at: now, active: true },
            ),
            find(old(self).view(), token) >= 0 ==> final(self).view() == old(self).view().update(
                find(old(self).view(), token),
                TokenEntry { active: true, ..old(self).view()[find(old(self).view(), token)] },
            ),
    {
        proof {
            use_type_invariant(&*self);
            lemma_find_bounds(self.entries@, token);
        }
        let mut entries: Vec<TokenEntry> = Vec::new();
        std::mem::swap(&mut entries, &mut self.entries);
        let ghost before = entries@;
        let tmp = TokenRegistry { entries };
        let found = tmp.index_of(token);
        let mut entries = tmp.entries;
        match found {
            Some(i) => {
                let e = entries[i];
                entries.set(i, TokenEntry { active: true, ..e });
                proof {
                    assert forall|a: int, b: int|
                        0 <= a < b < entries@.len() implies #[trigger] entries@[a].token
                        != #[trigger] entries@[b].token by {
                        assert(before[a].token != before[b].token);
                    }
                }
            },
            None => {
                entries.push(TokenEntry { token, added_by: caller, added_at: now, active: true });
                proof {
                    assert forall|a: int, b: int|
                        0 <= a < b < entries@.len() implies #[trigger] entries@[a].token
                        != #[trigger] entries@[b].token by {
                        if b == before.len() {
                            assert(before[a].token != token);
                        } else {
                            assert(before[a].token != before[b].token);
                        }
                    }
                }
            },
        }
        self.entries = entries;
    }

    /// Removes `token` from the accepted set, keeping its record; removing a
    /// token that is inactive or was never registered changes nothing.
    pub fn remove(&mut self, token: AccountId)
        ensures
            find(old(self).view(), token) == -1 ==> final(self).view() == old(self).view(),
            find(old(self).view(), token) >= 0 ==> final(self).view() == old(self).view().update(
                find(old(self).view(), token),
                TokenEntry { active: false, ..old(self).view()[find(old(self).view(), token)] },
            ),
    {
        proof {
            use_type_invariant(&*self);
            lemma_find_bounds(self.entries@, token);
        }
        let mut entries: Vec<TokenEntry> = Vec::new();
        std::mem::swap(&mut entries, &mut self.entries);
        let ghost before = entries@;
        let tmp = TokenRegistry { entries };
        let found = tmp.index_of(token);
        let mut entries = tmp.entries;
        match found {
            Some(i) => {
                let e = entries[i];
                entries.set(i, TokenEntry { active: false, ..e });
                proof {
                    assert forall|a: int, b: int|
                        0 <= a < b < entries@.len() implies #[trigger] entries@[a].token
                        != #[trigger] entries@[b].token by {
                        assert(before[a].token != before[b].token);
                    }
                }
            },
            None => {},
        }
        self.entries = entries;
    }

    /// The record of `token`, if it was ever registered.
    pub fn entry(&self, token: AccountId) -> (r: Option<TokenEntry>)
        ensures
            r == entry_of(self.view(), token),
    {
        proof {
            lemma_find_bounds(self.entries@, token);
        }
        match self.index_of(token) {
            Some(i) => Some(self.entries[i]),
            None => None,
        }
    }

    /// Whether listings, auctions and offers may be priced in `token`.
    pub fn is_accepted(&self, token: AccountId) -> (b: bool)
        ensures
            b == accepts(self.view(), token),
    {
        match self.entry(token) {
            Some(e) => e.active,
            None => self.entries.len() == 0,
        }
    }

    /// Checks the payment asset of a listing, auction or offer on
    /// `collection`: it must be accepted by the registry, and it cannot be the
    /// collection itself or the marketplace `contract` (`TokenNotWhitelisted`
    /// otherwise).
    pub fn check_payment_token(&self, token: AccountId, collection: AccountId, contract: AccountId) -> (r:
        Result<(), MarketplaceError>)
        ensures
            r == payment_token_verdict(self.view(), token, collection, contract),
    {
        if token == collection || token == contract || !self.is_accepted(token) {
            Err(MarketplaceError::TokenNotWhitelisted)
        } else {
            Ok(())
        }
    }

    /// The full policy record of `token`.
    pub fn policy(&self, token: AccountId) -> (p: TokenPolicy)
        ensures
            p.entry == entry_of(self.view(), token),
            p.is_accepted == accepts(self.view(), token),
            p.total_registered == self.view().len(),
            p.state == (match entry_of(self.view(), token) {
                None => TokenWhitelistState::NeverAdded,
                Some(e) => if e.active {
                    TokenWhitelistState::Active
                } else {
                    TokenWhitelistState::Removed
                },
            }),
    {
        proof {
            use_type_invariant(self);
        }
        let entry = self.entry(token);
        let state = match entry {
            None => TokenWhitelistState::NeverAdded,
            Some(e) => if e.active {
                TokenWhitelistState::Active
            } else {
                TokenWhitelistState::Removed
            },
        };
        TokenPolicy {
            state,
            is_accepted: self.is_accepted(token),
            entry,
            total_registered: self.entries.len() as u64,
        }
    }

    /// The accepted tokens, in registration order.
    pub fn active_tokens(&self) -> (r: Vec<AccountId>)
        ensures
            r@ == active_tokens(self.view()),
    {
        let mut r: Vec<AccountId> = Vec::new();
        let mut i: usize = 0;
        while i < self.entries.len()
            invariant
                i <= self.entries@.len(),
                r@ == active_tokens(self.entries@.take(i as int)),
            decreases self.entries@.len() - i,
        {
            assert(self.entries@.take(i as int + 1).drop_last() =~= self.entries@.take(i as int));
            if self.entries[i].active {
                r.push(self.entries[i].token);
            }
            i = i + 1;
        }
        assert(self.entries@.take(i as int) =~= self.entries@);
        r
    }

    /// At most `limit` accepted tokens, starting at position `offset` of the
    /// accepted list.
    pub fn active_tokens_page(&self, offset: u32, limit: u32) -> (r: Vec<AccountId>)
        ensures
            r@ == page(active_tokens(self.view()), offset as int, limit as int),
    {
        let all = self.active_tokens();
        let mut r: Vec<AccountId> = Vec::new();
        let start: usize = if (offset as usize) < all.len() {
            offset as usize
        } else {
            all.len()
        };
        let mut i: usize = start;
        while i < all.len() && ((i - start) as u64) < (limit as u64)
            invariant
                start <= i <= all@.len(),
                start == (if offset < all@.len() {
                    offset as int
                } else {
                    all@.len() as int
                }),
                i - start <= limit,
                r@ == all@.subrange(start as int, i as int),
            decreases all@.len() - i,
        {
            r.push(all[i]);
            i = i + 1;
            assert(r@ =~= all@.subrange(start as int, i as int));
        }
        assert(r@ =~= page(all@, offset as int, limit as int));
        r
    }
}

/// The page of `s` that starts at `offset` and holds at most `limit` items.
pub open spec fn page<T>(s: Seq<T>, offset: int, limit: int) -> Seq<T> {
    let start = if offset < s.len() {
        offset
    } else {
        s.len() as int
    };
    let end = if start + limit < s.len() {
        start + limit
    } else {
        s.len() as int
    };
    s.subrange(start, end)
}

/// Registering and removing never rewrites a token's history: whatever the
/// operation, the record of every token keeps its `added_at` and `added_by`.
pub proof fn lemma_history_preserved(
    s: Seq<TokenEntry>,
    t: AccountId,
    u: AccountId,
    active: bool,
)
    requires
        unique_tokens(s),
        find(s, t) >= 0,
        entry_of(s, u) is Some,
    ensures
        ({
            let s2 = s.update(find(s, t), TokenEntry { active, ..s[find(s, t)] });
            &&& entry_of(s2, u) is Some
            &&& entry_of(s2, u)->Some_0.added_at == entry_of(s, u)->Some_0.added_at
            &&& entry_of(s2, u)->Some_0.added_by == entry_of(s, u)->Some_0.added_by
            &&& entry_of(s2, u)->Some_0.token == u
        }),
{
    lemma_find_bounds(s, t);
    lemma_find_bounds(s, u);
    let i = find(s, t);
    let j = find(s, u);
    let s2 = s.update(i, TokenEntry { active, ..s[i] });
    assert(unique_tokens(s2)) by {
        assert forall|a: int, b: int| 0 <= a < b < s2.len() implies #[trigger] s2[a].token
            != #[trigger] s2[b].token by {
            assert(s[a].token != s[b].token);
        }
    }
    assert(s2[j].token == u);
    lemma_find_unique(s2, u, j);
}

/// Pass-all mode ends for good with the first registration: once the registry
/// holds a record, an unregistered token is refused, even if every
/// registered token was removed since.
pub proof fn lemma_pass_all_only_when_empty(s: Seq<TokenEntry>, token: AccountId)
    ensures
        entry_of(s, token) is None ==> (accepts(s, token) <==> s.len() == 0),
        s.len() == 0 ==> accepts(s, token),
{
}

} // verus!
