//! Protocol configuration: the global parameters that new listings and
//! auctions snapshot, with the validation each setter applies.
use std::collections::HashMap;
use vstd::prelude::*;

use crate::bid_history::valid_cap;
use crate::errors::MarketplaceError;
use crate::listing::{PriceBounds, MAX_PROTOCOL_FEE_BPS};
use crate::recipients::BPS_DENOMINATOR;
use crate::types::AccountId;

verus! {

broadcast use vstd::std_specs::hash::group_hash_axioms;

/// Minimum raise over the highest bid until configured otherwise.
pub const DEFAULT_MIN_BID_INCREMENT: i128 = 1_000_000;

/// Anti-sniping extension length until configured otherwise.
pub const DEFAULT_EXTENSION_WINDOW: u64 = 600;

/// Anti-sniping trigger until configured otherwise: 0 disables extensions.
pub const DEFAULT_EXTENSION_TRIGGER: u64 = 0;

/// Bid-history capacity new auctions get until configured otherwise.
pub const DEFAULT_BID_HISTORY_CAP: u32 = 20;

/// The global protocol parameters.
#[derive(Clone, Copy, Debug, PartialEq, Eq, Structural)]
pub struct ProtocolConfig {
    /// Fee charged on settlements of listings created from now on.
    pub protocol_fee_bps: u32,
    pub min_bid_increment: i128,
    pub extension_window: u64,
    pub extension_trigger: u64,
    pub bid_history_cap: u32,
    /// 0 means extensions are not capped in number.
    pub max_extensions: u32,
    pub price_bounds: Option<PriceBounds>,
    pub min_listing_duration: Option<u64>,
    pub max_listing_duration: Option<u64>,
}

/// Price bounds are usable: a positive minimum no larger than the maximum.
pub open spec fn bounds_ok(min: i128, max: i128) -> bool {
    0 < min <= max
}

impl ProtocolConfig {
    /// Every parameter lies in the range its setter accepts.
    pub open spec fn wf(self) -> bool {
        &&& self.protocol_fee_bps <= MAX_PROTOCOL_FEE_BPS
        &&& self.min_bid_increment > 0
        &&& self.extension_window > 0
        &&& valid_cap(self.bid_history_cap)
        &&& (self.price_bounds matches Some(b) ==> bounds_ok(b.min, b.max))
        &&& self.max_listing_duration != Some(0u64)
    }

    /// The configuration a fresh deployment starts with: no fee, the default
    /// bid increment and extension settings, no bounds and no duration limits.
    pub fn new() -> (c: ProtocolConfig)
        ensures
            c.wf(),
            c.protocol_fee_bps == 0,
            c.min_bid_increment == DEFAULT_MIN_BID_INCREMENT,
            c.extension_window == DEFAULT_EXTENSION_WINDOW,
            c.extension_trigger == DEFAULT_EXTENSION_TRIGGER,
            c.bid_history_cap == DEFAULT_BID_HISTORY_CAP,
            c.max_extensions == 0,
            c.price_bounds is None,
            c.min_listing_duration is None,
            c.max_listing_duration is None,
    {
        ProtocolConfig {
            protocol_fee_bps: 0,
            min_bid_increment: DEFAULT_MIN_BID_INCREMENT,
            extension_window: DEFAULT_EXTENSION_WINDOW,
            extension_trigger: DEFAULT_EXTENSION_TRIGGER,
            bid_history_cap: DEFAULT_BID_HISTORY_CAP,
            max_extensions: 0,
            price_bounds: None,
            min_listing_duration: None,
            max_listing_duration: None,
        }
    }

    /// Sets the protocol fee; more than [`MAX_PROTOCOL_FEE_BPS`] is refused
    /// with `InvalidPrice`.
    pub fn set_protocol_fee(&mut self, bps: u32) -> (r: Result<(), MarketplaceError>)
        requires
            old(self).wf(),
        ensures
            final(self).wf(),
            r is Ok <==> bps <= MAX_PROTOCOL_FEE_BPS,
            r is Ok ==> *final(self) == (ProtocolConfig { protocol_fee_bps: bps, ..*old(self) }),
            r is Err ==> r == Err::<(), MarketplaceError>(MarketplaceError::InvalidPrice)
                && *final(self) == *old(self),
    {
        if bps > MAX_PROTOCOL_FEE_BPS {
            return Err(MarketplaceError::InvalidPrice);
        }
        self.protocol_fee_bps = bps;
        Ok(())
    }

    /// Sets the minimum bid increment; it must be positive (`InvalidPrice`
    /// otherwise).
    pub fn set_min_bid_increment(&mut self, increment: i128) -> (r: Result<(), MarketplaceError>)
        requires
            old(self).wf(),
        ensures
            final(self).wf(),
            r is Ok <==> increment > 0,
            r is Ok ==> *final(self) == (ProtocolConfig { min_bid_increment: increment, ..*old(self) }),
            r is Err ==> r == Err::<(), MarketplaceError>(MarketplaceError::InvalidPrice)
                && *final(self) == *old(self),
    {
        if increment <= 0 {
            return Err(MarketplaceError::InvalidPrice);
        }
        self.min_bid_increment = increment;
        Ok(())
    }

    /// Sets how far a late bid pushes the end time; zero is refused with
    /// `InvalidExtensionWindow`.
    pub fn set_extension_window(&mut self, window: u64) -> (r: Result<(), MarketplaceError>)
        requires
            old(self).wf(),
        ensures
            final(self).wf(),
            r is Ok <==> window > 0,
            r is Ok ==> *final(self) == (ProtocolConfig { extension_window: window, ..*old(self) }),
            r is Err ==> r == Err::<(), MarketplaceError>(MarketplaceError::InvalidExtensionWindow)
                && *final(self) == *old(self),
    {
        if window == 0 {
            return Err(MarketplaceError::InvalidExtensionWindow);
        }
        self.extension_window = window;
        Ok(())
    }

    /// Sets how close to the end a bid must land to extend the auction; 0
    /// disables extensions.
    pub fn set_extension_trigger(&mut self, trigger: u64)
        requires
            old(self).wf(),
        ensures
            final(self).wf(),
            *final(self) == (ProtocolConfig { extension_trigger: trigger, ..*old(self) }),
    {
        self.extension_trigger = trigger;
    }

    /// Sets how many extensions new auctions allow; 0 means no cap.
    pub fn set_max_extensions(&mut self, max_extensions: u32)
        requires
            old(self).wf(),
        ensures
            final(self).wf(),
            *final(self) == (ProtocolConfig { max_extensions, ..*old(self) }),
    {
        self.max_extensions = max_extensions;
    }

    /// Sets the bid-history capacity of new auctions; it must lie in
    /// `1..=MAX_BID_HISTORY_CAP` (`InvalidPrice` otherwise).
    pub fn set_bid_history_cap(&mut self, cap: u32) -> (r: Result<(), MarketplaceError>)
        requires
            old(self).wf(),
        ensures
            final(self).wf(),
            r is Ok <==> valid_cap(cap),
            r is Ok ==> *final(self) == (ProtocolConfig { bid_history_cap: cap, ..*old(self) }),
            r is Err ==> r == Err::<(), MarketplaceError>(MarketplaceError::InvalidPrice)
                && *final(self) == *old(self),
    {
        if !crate::bid_history::is_valid_bid_history_cap(cap) {
            return Err(MarketplaceError::InvalidPrice);
        }
        self.bid_history_cap = cap;
        Ok(())
    }

    /// Sets the listing price bounds (both ends included); the minimum must
    /// be positive and at most the maximum (`InvalidPrice` otherwise).
    pub fn set_price_bounds(&mut self, min: i128, max: i128) -> (r: Result<(), MarketplaceError>)
        requires
            old(self).wf(),
        ensures
            final(self).wf(),
            r is Ok <==> bounds_ok(min, max),
            r is Ok ==> *final(self) == (ProtocolConfig {
                price_bounds: Some(PriceBounds { min, max }),
                ..*old(self)
            }),
            r is Err ==> r == Err::<(), MarketplaceError>(MarketplaceError::InvalidPrice)
                && *final(self) == *old(self),
    {
        if min <= 0 || min > max {
            return Err(MarketplaceError::InvalidPrice);
        }
        self.price_bounds = Some(PriceBounds { min, max });
        Ok(())
    }

    /// Sets the shortest listing duration.
    pub fn set_min_listing_duration(&mut self, duration: u64)
        requires
            old(self).wf(),
        ensures
            final(self).wf(),
            *final(self) == (ProtocolConfig { min_listing_duration: Some(duration), ..*old(self) }),
    {
        self.min_listing_duration = Some(duration);
    }

    /// Removes the shortest listing duration.
    pub fn clear_min_listing_duration(&mut self)
        requires
            old(self).wf(),
        ensures
            final(self).wf(),
            *final(self) == (ProtocolConfig { min_listing_duration: None, ..*old(self) }),
    {
        self.min_listing_duration = None;
    }

    /// Sets the longest listing duration; zero is refused with
    /// `InvalidListingDuration`.
    pub fn set_max_listing_duration(&mut self, duration: u64) -> (r: Result<(), MarketplaceError>)
        requires
            old(self).wf(),
        ensures
            final(self).wf(),
            r is Ok <==> duration > 0,
            r is Ok ==> *final(self) == (ProtocolConfig {
                max_listing_duration: Some(duration),
                ..*old(self)
            }),
            r is Err ==> r == Err::<(), MarketplaceError>(MarketplaceError::InvalidListingDuration)
                && *final(self) == *old(self),
    {
        crate::listing::validate_max_listing_duration(duration)?;
        self.max_listing_duration = Some(duration);
        Ok(())
    }

    /// Removes the longest listing duration.
    pub fn clear_max_listing_duration(&mut self)
        requires
            old(self).wf(),
        ensures
            final(self).wf(),
            *final(self) == (ProtocolConfig { max_listing_duration: None, ..*old(self) }),
    {
        self.max_listing_duration = None;
    }
}

/// Per-collection fee overrides.
pub struct CollectionFees {
    fees: HashMap<u64, u32>,
}

impl CollectionFees {
    /// The fee override of each collection, by the collection's handle.
    pub closed spec fn view(&self) -> Map<u64, u32> {
        self.fees@
    }

    /// No override.
    pub fn new() -> (r: CollectionFees)
        ensures
            r.view() == Map::<u64, u32>::empty(),
    {
        CollectionFees { fees: HashMap::new() }
    }

    /// Sets the fee override of `collection`; more than 10 000 bps is
    /// refused with `InvalidPrice`.
    pub fn set(&mut self, collection: AccountId, bps: u32) -> (r: Result<(), MarketplaceError>)
        ensures
            r is Ok <==> bps <= BPS_DENOMINATOR,
            r is Ok ==> final(self).view() == old(self).view().insert(collection.0, bps),
            r is Err ==> r == Err::<(), MarketplaceError>(MarketplaceError::InvalidPrice)
                && final(self).view() == old(self).view(),
    {
        if bps > BPS_DENOMINATOR {
            return Err(MarketplaceError::InvalidPrice);
        }
        self.fees.insert(collection.0, bps);
        Ok(())
    }

    /// The fee override of `collection`, if one is set.
    pub fn get(&self, collection: AccountId) -> (r: Option<u32>)
        ensures
            r == (if self.view().contains_key(collection.0) {
                Some(self.view()[collection.0])
            } else {
                None
            }),
    {
        match self.fees.get(&collection.0) {
            Some(b) => Some(*b),
            None => None,
        }
    }
}

} // verus!
