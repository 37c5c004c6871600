use vstd::prelude::*;

verus! {

/// An account or contract on the ledger, identified by the numeric handle
/// under which the host knows it. Two handles are the same party exactly when
/// they are equal.
#[derive(Clone, Copy, Debug, PartialEq, Eq, Structural)]
pub struct AccountId(pub u64);

/// The four role axes that govern privileged entry points.
///
/// Every privileged entry point is owned by exactly one role. A role without
/// an explicit holder falls back to the contract admin.
#[derive(Clone, Copy, Debug, PartialEq, Eq, Structural)]
pub enum RoleType {
    /// Price bounds, treasury, fees, bid and auction parameters.
    ProtocolConfig,
    /// Global, collection and function circuit breakers.
    EmergencyPause,
    /// Artist revocation, reinstatement and collection-level cleanup.
    CollectionAdmin,
    /// Storage and version migration.
    Upgrade,
}

/// Lifecycle of a fixed-price listing.
#[derive(Clone, Copy, Debug, PartialEq, Eq, Structural)]
pub enum ListingStatus {
    Active,
    Sold,
    Cancelled,
}

/// Lifecycle of an auction.
#[derive(Clone, Copy, Debug, PartialEq, Eq, Structural)]
pub enum AuctionStatus {
    Active,
    Finalized,
    Cancelled,
}

/// Lifecycle of an offer on a listing.
#[derive(Clone, Copy, Debug, PartialEq, Eq, Structural)]
pub enum OfferStatus {
    Pending,
    Accepted,
    Rejected,
    Withdrawn,
}

/// The token standard a collection contract implements.
#[derive(Clone, Copy, Debug, PartialEq, Eq, Structural)]
pub enum CollectionStandard {
    /// Single-token collection: a listing's quantity must be 1.
    Erc721,
    /// Multi-edition collection: a listing's quantity must be at least 1.
    Erc1155,
    /// Lazy-mint single-token collection: quantity must be 1.
    LazyMint721,
    /// Lazy-mint multi-edition collection: quantity must be at least 1.
    LazyMint1155,
}

/// One payee of a sale and its share in basis points (0 – 10 000).
#[derive(Clone, Copy, Debug, PartialEq, Eq, Structural)]
pub struct Recipient {
    pub address: AccountId,
    pub percentage: u32,
}

/// A fixed-price listing.
#[derive(Clone, Debug)]
pub struct Listing {
    pub listing_id: u64,
    /// The seller.
    pub artist: AccountId,
    /// Base units of `token`; never rescaled.
    pub price: i128,
    pub currency: String,
    /// The payment token.
    pub token: AccountId,
    pub collection: AccountId,
    pub token_id: u64,
    /// Editions on sale; always 1 for single-token collections.
    pub quantity: u64,
    pub recipients: Vec<Recipient>,
    pub status: ListingStatus,
    /// The buyer, once sold.
    pub owner: Option<AccountId>,
    /// Ledger sequence at creation.
    pub created_at: u32,
    /// The protocol fee in force when the listing was created.
    pub protocol_fee_bps: u32,
    pub expires_at: Option<u64>,
    /// The only account that may buy while the reservation window is open.
    pub reserved_for: Option<AccountId>,
    /// Opening of the reservation window (inclusive); `None`: already open.
    pub reservation_start: Option<u64>,
    /// Close of the reservation window (exclusive); `None`: no end set.
    pub reservation_end: Option<u64>,
}

/// An offer on a listing, with the offered amount held in escrow.
#[derive(Clone, Copy, Debug, PartialEq, Eq, Structural)]
pub struct Offer {
    pub offer_id: u64,
    pub listing_id: u64,
    pub offerer: AccountId,
    pub amount: i128,
    pub token: AccountId,
    pub status: OfferStatus,
    /// Ledger sequence at creation.
    pub created_at: u32,
    pub expires_at: Option<u64>,
}

/// One listing of a batch creation request.
#[derive(Clone, Debug)]
pub struct BatchCreateListingInput {
    pub price: i128,
    pub currency: String,
    pub token: AccountId,
    pub collection: AccountId,
    pub token_id: u64,
    pub quantity: u64,
    pub recipients: Vec<Recipient>,
    pub expires_at: Option<u64>,
}

} // verus!
