//! Models of the collection and payment-token contracts the marketplace is
//! exercised against: an NFT collection that tracks ownership and a royalty,
//! a typed collection that also reports its standard, a token that tries to
//! re-enter the marketplace during a transfer, and a token that accepts any
//! transfer.
use std::collections::HashMap;
use vstd::prelude::*;

use crate::types::{AccountId, CollectionStandard};

verus! {

broadcast use vstd::std_specs::hash::group_hash_axioms;

/// Who owns each token id of a collection.
pub struct TokenOwners {
    owners: HashMap<u64, AccountId>,
}

impl TokenOwners {
    /// The ownership map.
    pub closed spec fn view(&self) -> Map<u64, AccountId> {
        self.owners@
    }

    /// No token owned.
    pub fn new() -> (r: TokenOwners)
        ensures
            r.view() == Map::<u64, AccountId>::empty(),
    {
        TokenOwners { owners: HashMap::new() }
    }

    /// The owner of `token_id`, if it has one.
    pub fn owner(&self, token_id: u64) -> (r: Option<AccountId>)
        ensures
            r == (if self.view().contains_key(token_id) {
                Some(self.view()[token_id])
            } else {
                None
            }),
    {
        match self.owners.get(&token_id) {
            Some(o) => Some(*o),
            None => None,
        }
    }

    /// Makes `owner` the owner of `token_id`.
    pub fn set(&mut self, token_id: u64, owner: AccountId)
        ensures
            final(self).view() == old(self).view().insert(token_id, owner),
    {
        self.owners.insert(token_id, owner);
    }
}

/// An NFT collection that tracks real ownership, so that ownership checks and
/// `transfer_from` behave as on a live collection, and that reports a
/// collection-level royalty.
pub struct MockNft {
    pub owners: TokenOwners,
    pub royalty_bps: Option<u32>,
    pub royalty_receiver: Option<AccountId>,
}

/// What `royalty_info` reports for `nft` when handed the fresh address
/// `fresh_receiver`: the configured receiver or else the fresh one, and the
/// configured rate or else 0.
pub open spec fn royalty_report(nft: MockNft, fresh_receiver: AccountId) -> (AccountId, u32) {
    (
        match nft.royalty_receiver {
            Some(a) => a,
            None => fresh_receiver,
        },
        match nft.royalty_bps {
            Some(b) => b,
            None => 0,
        },
    )
}

impl MockNft {
    /// A collection with no token minted and no royalty configured.
    pub fn new() -> (r: MockNft)
        ensures
            r.owners.view() == Map::<u64, AccountId>::empty(),
            r.royalty_bps is None,
            r.royalty_receiver is None,
    {
        MockNft { owners: TokenOwners::new(), royalty_bps: None, royalty_receiver: None }
    }

    /// The owner of `token_id`. A token without owner is an error of the
    /// caller ("token has no owner").
    pub fn owner_of(&self, token_id: u64) -> (r: AccountId)
        requires
            self.owners.view().contains_key(token_id),
        ensures
            r == self.owners.view()[token_id],
    {
        self.owners.owner(token_id).unwrap()
    }

    /// Mints `token_id` to `owner` (or reassigns it).
    pub fn set_owner(&mut self, token_id: u64, owner: AccountId)
        ensures
            final(self).owners.view() == old(self).owners.view().insert(token_id, owner),
            final(self).royalty_bps == old(self).royalty_bps,
            final(self).royalty_receiver == old(self).royalty_receiver,
    {
        self.owners.set(token_id, owner);
    }

    /// Moves `token_id` from `from` to `to`. The token must exist and be
    /// owned by `from` ("transfer_from: wrong owner" otherwise).
    pub fn transfer_from(&mut self, spender: AccountId, from: AccountId, to: AccountId, token_id: u64)
        requires
            old(self).owners.view().contains_key(token_id),
            old(self).owners.view()[token_id] == from,
        ensures
            final(self).owners.view() == old(self).owners.view().insert(token_id, to),
            final(self).royalty_bps == old(self).royalty_bps,
            final(self).royalty_receiver == old(self).royalty_receiver,
    {
        self.owners.set(token_id, to);
    }

    /// The collection royalty as (receiver, basis points). Without a
    /// configured royalty the rate is 0; without a configured receiver the
    /// receiver is `fresh_receiver`, an address nobody else uses.
    pub fn royalty_info(&self, fresh_receiver: AccountId) -> (r: (AccountId, u32))
        ensures
            r == royalty_report(*self, fresh_receiver),
    {
        let bps = match self.royalty_bps {
            Some(b) => b,
            None => 0,
        };
        let receiver = match self.royalty_receiver {
            Some(a) => a,
            None => fresh_receiver,
        };
        (receiver, bps)
    }

    /// Configures the royalty receiver and rate.
    pub fn set_royalty(&mut self, receiver: AccountId, bps: u32)
        ensures
            final(self).owners.view() == old(self).owners.view(),
            final(self).royalty_receiver == Some(receiver),
            final(self).royalty_bps == Some(bps),
    {
        self.royalty_receiver = Some(receiver);
        self.royalty_bps = Some(bps);
    }
}

/// The standard name a typed collection reports when none was set.
pub open spec fn default_kind() -> Seq<char> {
    "ERC721"@
}

/// A collection that also reports which token standard it implements.
pub struct MockNftTyped {
    pub owners: TokenOwners,
    pub kind: Option<String>,
}

impl MockNftTyped {
    /// A collection with no token minted and no standard set.
    pub fn new() -> (r: MockNftTyped)
        ensures
            r.owners.view() == Map::<u64, AccountId>::empty(),
            r.kind is None,
    {
        MockNftTyped { owners: TokenOwners::new(), kind: None }
    }

    /// The owner of `token_id`; the token must have one.
    pub fn owner_of(&self, token_id: u64) -> (r: AccountId)
        requires
            self.owners.view().contains_key(token_id),
        ensures
            r == self.owners.view()[token_id],
    {
        self.owners.owner(token_id).unwrap()
    }

    /// Mints `token_id` to `owner` (or reassigns it).
    pub fn set_owner(&mut self, token_id: u64, owner: AccountId)
        ensures
            final(self).owners.view() == old(self).owners.view().insert(token_id, owner),
            final(self).kind == old(self).kind,
    {
        self.owners.set(token_id, owner);
    }

    /// Moves `token_id` from `from` to `to`; the token must be owned by
    /// `from`.
    pub fn transfer_from(&mut self, spender: AccountId, from: AccountId, to: AccountId, token_id: u64)
        requires
            old(self).owners.view().contains_key(token_id),
            old(self).owners.view()[token_id] == from,
        ensures
            final(self).owners.view() == old(self).owners.view().insert(token_id, to),
            final(self).kind == old(self).kind,
    {
        self.owners.set(token_id, to);
    }

    /// This collection pays no royalty: the rate is 0 and the receiver is
    /// `fresh_receiver`, an address nobody else uses.
    pub fn royalty_info(&self, fresh_receiver: AccountId) -> (r: (AccountId, u32))
        ensures
            r.0 == fresh_receiver,
            r.1 == 0,
    {
        (fresh_receiver, 0)
    }

    /// The standard the collection reports: the one set, or `ERC721`.
    pub fn contract_type(&self) -> (r: String)
        ensures
            r@ == (match self.kind {
                Some(k) => k@,
                None => default_kind(),
            }),
    {
        match &self.kind {
            Some(k) => k.clone(),
            None => {
                let k = "ERC721".to_owned();
                proof {
                    reveal_strlit("ERC721");
                }
                k
            },
        }
    }

    /// Sets the standard the collection reports.
    pub fn set_kind(&mut self, kind: String)
        ensures
            final(self).owners.view() == old(self).owners.view(),
            final(self).kind == Some(kind),
    {
        self.kind = Some(kind);
    }
}

/// The standard named by a collection's reported kind: `ERC721` and
/// `ERC1155`; other names are not recognised.
pub open spec fn standard_named(kind: Seq<char>) -> Option<CollectionStandard> {
    if kind == "ERC721"@ {
        Some(CollectionStandard::Erc721)
    } else if kind == "ERC1155"@ {
        Some(CollectionStandard::Erc1155)
    } else {
        None
    }
}

/// Reads the standard out of the kind a collection reports.
pub fn standard_of(kind: &String) -> (r: Option<CollectionStandard>)
    ensures
        r == standard_named(kind@),
{
    let erc721 = "ERC721".to_owned();
    let erc1155 = "ERC1155".to_owned();
    if *kind == erc721 {
        Some(CollectionStandard::Erc721)
    } else if *kind == erc1155 {
        Some(CollectionStandard::Erc1155)
    } else {
        None
    }
}

/// Where a re-entrant token aims its attack: the marketplace, the listing to
/// buy again, and the account buying.
#[derive(Clone, Copy, Debug, PartialEq, Eq, Structural)]
pub struct ReentryAttempt {
    pub marketplace: AccountId,
    pub listing_id: u64,
    pub attacker: AccountId,
}

/// A payment token whose `transfer` tries to call the marketplace's purchase
/// entry point again for the same listing, and records whether the nested
/// call was refused.
pub struct MockReentrantToken {
    pub marketplace: Option<AccountId>,
    pub listing_id: Option<u64>,
    pub attacker: Option<AccountId>,
    pub blocked: Option<bool>,
}

/// The balance every account reports on the re-entrant token.
pub const REENTRANT_TOKEN_BALANCE: i128 = 100_000_000_000;

impl MockReentrantToken {
    /// A token with no attack configured.
    pub fn new() -> (r: MockReentrantToken)
        ensures
            r.marketplace is None,
            r.listing_id is None,
            r.attacker is None,
            r.blocked is None,
    {
        MockReentrantToken { marketplace: None, listing_id: None, attacker: None, blocked: None }
    }

    /// Configures the attack before the transfer is triggered.
    pub fn set_attack_params(&mut self, marketplace: AccountId, listing_id: u64, attacker: AccountId)
        ensures
            final(self).marketplace == Some(marketplace),
            final(self).listing_id == Some(listing_id),
            final(self).attacker == Some(attacker),
            final(self).blocked == old(self).blocked,
    {
        self.marketplace = Some(marketplace);
        self.listing_id = Some(listing_id);
        self.attacker = Some(attacker);
    }

    /// The nested purchase a transfer attempts; the attack must be
    /// configured.
    pub fn reentry_attempt(&self) -> (r: ReentryAttempt)
        requires
            self.marketplace is Some,
            self.listing_id is Some,
            self.attacker is Some,
        ensures
            r.marketplace == self.marketplace->Some_0,
            r.listing_id == self.listing_id->Some_0,
            r.attacker == self.attacker->Some_0,
    {
        ReentryAttempt {
            marketplace: self.marketplace.unwrap(),
            listing_id: self.listing_id.unwrap(),
            attacker: self.attacker.unwrap(),
        }
    }

    /// Records how the nested purchase ended: `nested_failed` is true when
    /// the marketplace refused it.
    pub fn record_reentry_outcome(&mut self, nested_failed: bool)
        ensures
            final(self).blocked == Some(nested_failed),
            final(self).marketplace == old(self).marketplace,
            final(self).listing_id == old(self).listing_id,
            final(self).attacker == old(self).attacker,
    {
        self.blocked = Some(nested_failed);
    }

    /// Whether the re-entrant purchase was refused; false before any attempt.
    pub fn attack_blocked(&self) -> (b: bool)
        ensures
            b == (self.blocked == Some(true)),
    {
        match self.blocked {
            Some(b) => b,
            None => false,
        }
    }

    /// Every account holds the same fixed balance.
    pub fn balance(&self, id: AccountId) -> (b: i128)
        ensures
            b == REENTRANT_TOKEN_BALANCE,
    {
        REENTRANT_TOKEN_BALANCE
    }
}

/// A payment token that accepts any transfer and reports the largest
/// possible balance for every account, so that settlement arithmetic can be
/// driven to its limits.
pub struct MockFreeToken;

impl MockFreeToken {
    /// Every account reports `i128::MAX`.
    pub fn balance(&self, id: AccountId) -> (b: i128)
        ensures
            b == i128::MAX,
    {
        i128::MAX
    }
}

/// Until a royalty is configured, `royalty_info` reports rate 0 and a
/// receiver that is the fresh address it was handed: it stores none, so two
/// reads handed distinct fresh addresses report distinct receivers, while
/// nothing in the collection changes.
pub proof fn lemma_default_royalty_receiver_is_fresh(nft: MockNft, fresh1: AccountId, fresh2: AccountId)
    requires
        nft.royalty_receiver is None,
        nft.royalty_bps is None,
        fresh1 != fresh2,
    ensures
        royalty_report(nft, fresh1) == (fresh1, 0u32),
        royalty_report(nft, fresh2) == (fresh2, 0u32),
        royalty_report(nft, fresh1).0 != royalty_report(nft, fresh2).0,
{
}

} // verus!
