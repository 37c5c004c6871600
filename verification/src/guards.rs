//! Two per-entity guards: the settlement lock that keeps a listing from being
//! settled twice at once (re-entrancy), and the register of revoked artists.
use std::collections::HashSet;
use vstd::prelude::*;

use crate::errors::MarketplaceError;
use crate::types::AccountId;

verus! {

broadcast use vstd::std_specs::hash::group_hash_axioms;

/// The listings whose settlement is in progress.
pub struct ListingLocks {
    held: HashSet<u64>,
}

impl ListingLocks {
    /// The locked listing ids.
    pub closed spec fn view(&self) -> Set<u64> {
        self.held@
    }

    /// No listing locked.
    pub fn new() -> (r: ListingLocks)
        ensures
            r.view() == Set::<u64>::empty(),
    {
        ListingLocks { held: HashSet::new() }
    }

    /// Whether a settlement of `listing_id` is in progress.
    pub fn is_locked(&self, listing_id: u64) -> (b: bool)
        ensures
            b == self.view().contains(listing_id),
    {
        self.held.contains(&listing_id)
    }

    /// Takes the lock of `listing_id`; false, with nothing changed, when it
    /// is already held.
    pub fn acquire(&mut self, listing_id: u64) -> (b: bool)
        ensures
            b == !old(self).view().contains(listing_id),
            final(self).view() == old(self).view().insert(listing_id),
    {
        self.held.insert(listing_id)
    }

    /// Takes the lock of `listing_id` for a settlement, refusing with
    /// `ReentrancyGuard` when a settlement of that listing is already in
    /// progress.
    pub fn enter(&mut self, listing_id: u64) -> (r: Result<(), MarketplaceError>)
        ensures
            r is Ok <==> !old(self).view().contains(listing_id),
            r is Err ==> r == Err::<(), MarketplaceError>(MarketplaceError::ReentrancyGuard),
            final(self).view() == old(self).view().insert(listing_id),
    {
        if self.acquire(listing_id) {
            Ok(())
        } else {
            Err(MarketplaceError::ReentrancyGuard)
        }
    }

    /// Gives the lock of `listing_id` back.
    pub fn release(&mut self, listing_id: u64)
        ensures
            final(self).view() == old(self).view().remove(listing_id),
    {
        self.held.remove(&listing_id);
    }
}

/// A settlement cannot be entered again while it is in progress, and once
/// released the listing can be settled again; other listings are not
/// affected by the lock.
pub proof fn lemma_lock_excludes_reentry(held: Set<u64>, listing_id: u64, other: u64)
    requires
        other != listing_id,
    ensures
        held.insert(listing_id).contains(listing_id),
        !held.insert(listing_id).remove(listing_id).contains(listing_id),
        held.insert(listing_id).contains(other) == held.contains(other),
        held.insert(listing_id).remove(listing_id).contains(other) == held.contains(other),
{
}

/// The artists a collection administrator has revoked.
pub struct RevokedArtists {
    revoked: HashSet<u64>,
}

impl RevokedArtists {
    /// The handles of the revoked artists.
    pub closed spec fn view(&self) -> Set<u64> {
        self.revoked@
    }

    /// Nobody revoked.
    pub fn new() -> (r: RevokedArtists)
        ensures
            r.view() == Set::<u64>::empty(),
    {
        RevokedArtists { revoked: HashSet::new() }
    }

    /// Whether `artist` is revoked.
    pub fn is_revoked(&self, artist: AccountId) -> (b: bool)
        ensures
            b == self.view().contains(artist.0),
    {
        self.revoked.contains(&artist.0)
    }

    /// Revokes `artist`: they can no longer create listings or auctions.
    pub fn revoke(&mut self, artist: AccountId)
        ensures
            final(self).view() == old(self).view().insert(artist.0),
    {
        self.revoked.insert(artist.0);
    }

    /// Reinstates `artist`.
    pub fn reinstate(&mut self, artist: AccountId)
        ensures
            final(self).view() == old(self).view().remove(artist.0),
    {
        self.revoked.remove(&artist.0);
    }

    /// Refuses with `ArtistRevoked` when `artist` is revoked.
    pub fn require_not_revoked(&self, artist: AccountId) -> (r: Result<(), MarketplaceError>)
        ensures
            r is Ok <==> !self.view().contains(artist.0),
            r is Err ==> r == Err::<(), MarketplaceError>(MarketplaceError::ArtistRevoked),
    {
        if self.is_revoked(artist) {
            Err(MarketplaceError::ArtistRevoked)
        } else {
            Ok(())
        }
    }
}

} // verus!
