use vstd::prelude::*;

verus! {

/// Every way an entry point of the marketplace can refuse a request.
///
/// Each variant carries a stable numeric code (see [`MarketplaceError::code`]);
/// the codes are part of the on-chain interface and never change meaning.
#[derive(Clone, Copy, Debug, PartialEq, Eq, Structural)]
pub enum MarketplaceError {
    InvalidCid,
    InvalidPrice,
    ListingNotFound,
    ListingNotActive,
    Unauthorized,
    CannotBuyOwnListing,
    InvalidSplit,
    TooManyRecipients,
    AuctionNotFound,
    AuctionNotActive,
    BidTooLow,
    AuctionExpired,
    AuctionNotExpired,
    AuctionAlreadyFinalized,
    ArtistRevoked,
    OfferNotFound,
    CannotOfferOwnListing,
    OfferNotPending,
    InsufficientOfferAmount,
    ListingSold,
    ListingCancelled,
    ReentrancyGuard,
    ContractPaused,
    InvalidRoyalty,
    TokenNotWhitelisted,
    RoyaltyExceedsLimit,
    ListingExpired,
    ListingNotExpired,
    AuctionNotEnded,
    AuctionHasBids,
    InvalidAuctionDuration,
    SelfBidNotAllowed,
    InvalidOfferState,
    OfferExpired,
    OfferLimitReached,
    BatchTooLarge,
    AlreadyMigrated,
    SelfPurchaseNotAllowed,
    PriceOutOfBounds,
    ArithmeticOverflow,
    AdminProposalExpired,
    NoAdminProposalPending,
    ZeroRecipientBps,
    DuplicateRecipient,
    InvalidAuctionState,
    NoBidToRefund,
    InvalidExtensionWindow,
    MaxExtensionsReached,
    NotTokenOwner,
    TokenAlreadyEscrowed,
    AuctionDurationLimitReached,
    NoRoleProposalPending,
    RoleProposalExpired,
    RoleTransferToSelf,
    RoleTransferToContract,
    TreasuryProposalExpired,
    NoTreasuryProposalPending,
    TreasuryProposalSelf,
    InvalidListingDuration,
    CollectionIncompatible,
    BatchItemInvalid,
    OwnershipMismatch,
    RoyaltyAlreadyClaimed,
    RoyaltyClaimNotFound,
    ReservationWindowActive,
    InvalidReservationWindow,
}

/// The stable numeric code of an error.
pub open spec fn error_code(e: MarketplaceError) -> u32 {
    match e {
        MarketplaceError::InvalidCid => 1,
        MarketplaceError::InvalidPrice => 2,
        MarketplaceError::ListingNotFound => 3,
        MarketplaceError::ListingNotActive => 4,
        MarketplaceError::Unauthorized => 5,
        MarketplaceError::CannotBuyOwnListing => 6,
        MarketplaceError::InvalidSplit => 7,
        MarketplaceError::TooManyRecipients => 8,
        MarketplaceError::AuctionNotFound => 9,
        MarketplaceError::AuctionNotActive => 10,
        MarketplaceError::BidTooLow => 11,
        MarketplaceError::AuctionExpired => 12,
        MarketplaceError::AuctionNotExpired => 13,
        MarketplaceError::AuctionAlreadyFinalized => 14,
        MarketplaceError::ArtistRevoked => 15,
        MarketplaceError::OfferNotFound => 16,
        MarketplaceError::CannotOfferOwnListing => 17,
        MarketplaceError::OfferNotPending => 18,
        MarketplaceError::InsufficientOfferAmount => 19,
        MarketplaceError::ListingSold => 20,
        MarketplaceError::ListingCancelled => 21,
        MarketplaceError::ReentrancyGuard => 22,
        MarketplaceError::ContractPaused => 23,
        MarketplaceError::InvalidRoyalty => 24,
        MarketplaceError::TokenNotWhitelisted => 25,
        MarketplaceError::RoyaltyExceedsLimit => 26,
        MarketplaceError::ListingExpired => 27,
        MarketplaceError::ListingNotExpired => 28,
        MarketplaceError::AuctionNotEnded => 29,
        MarketplaceError::AuctionHasBids => 30,
        MarketplaceError::InvalidAuctionDuration => 31,
        MarketplaceError::SelfBidNotAllowed => 32,
        MarketplaceError::InvalidOfferState => 33,
        MarketplaceError::OfferExpired => 34,
        MarketplaceError::OfferLimitReached => 35,
        MarketplaceError::BatchTooLarge => 36,
        MarketplaceError::AlreadyMigrated => 37,
        MarketplaceError::SelfPurchaseNotAllowed => 38,
        MarketplaceError::PriceOutOfBounds => 39,
        MarketplaceError::ArithmeticOverflow => 40,
        MarketplaceError::AdminProposalExpired => 41,
        MarketplaceError::NoAdminProposalPending => 42,
        MarketplaceError::ZeroRecipientBps => 43,
        MarketplaceError::DuplicateRecipient => 44,
        MarketplaceError::InvalidAuctionState => 45,
        MarketplaceError::NoBidToRefund => 46,
        MarketplaceError::InvalidExtensionWindow => 47,
        MarketplaceError::MaxExtensionsReached => 48,
        MarketplaceError::NotTokenOwner => 49,
        MarketplaceError::TokenAlreadyEscrowed => 50,
        MarketplaceError::AuctionDurationLimitReached => 51,
        MarketplaceError::NoRoleProposalPending => 52,
        MarketplaceError::RoleProposalExpired => 53,
        MarketplaceError::RoleTransferToSelf => 54,
        MarketplaceError::RoleTransferToContract => 55,
        MarketplaceError::TreasuryProposalExpired => 56,
        MarketplaceError::NoTreasuryProposalPending => 57,
        MarketplaceError::TreasuryProposalSelf => 58,
        MarketplaceError::InvalidListingDuration => 59,
        MarketplaceError::CollectionIncompatible => 60,
        MarketplaceError::BatchItemInvalid => 61,
        MarketplaceError::OwnershipMismatch => 62,
        MarketplaceError::RoyaltyAlreadyClaimed => 63,
        MarketplaceError::RoyaltyClaimNotFound => 64,
        MarketplaceError::ReservationWindowActive => 65,
        MarketplaceError::InvalidReservationWindow => 66,
    }
}

/// The largest error code in use; codes run without gaps from 1 to this value.
pub const MAX_ERROR_CODE: u32 = 66;

impl MarketplaceError {
    /// The numeric code under which the error is reported to callers.
    pub fn code(&self) -> (c: u32)
        ensures
            c == error_code(*self),
    {
        match self {
            MarketplaceError::InvalidCid => 1,
            MarketplaceError::InvalidPrice => 2,
            MarketplaceError::ListingNotFound => 3,
            MarketplaceError::ListingNotActive => 4,
            MarketplaceError::Unauthorized => 5,
            MarketplaceError::CannotBuyOwnListing => 6,
            MarketplaceError::InvalidSplit => 7,
            MarketplaceError::TooManyRecipients => 8,
            MarketplaceError::AuctionNotFound => 9,
            MarketplaceError::AuctionNotActive => 10,
            MarketplaceError::BidTooLow => 11,
            MarketplaceError::AuctionExpired => 12,
            MarketplaceError::AuctionNotExpired => 13,
            MarketplaceError::AuctionAlreadyFinalized => 14,
            MarketplaceError::ArtistRevoked => 15,
            MarketplaceError::OfferNotFound => 16,
            MarketplaceError::CannotOfferOwnListing => 17,
            MarketplaceError::OfferNotPending => 18,
            MarketplaceError::InsufficientOfferAmount => 19,
            MarketplaceError::ListingSold => 20,
            MarketplaceError::ListingCancelled => 21,
            MarketplaceError::ReentrancyGuard => 22,
            MarketplaceError::ContractPaused => 23,
            MarketplaceError::InvalidRoyalty => 24,
            MarketplaceError::TokenNotWhitelisted => 25,
            MarketplaceError::RoyaltyExceedsLimit => 26,
            MarketplaceError::ListingExpired => 27,
            MarketplaceError::ListingNotExpired => 28,
            MarketplaceError::AuctionNotEnded => 29,
            MarketplaceError::AuctionHasBids => 30,
            MarketplaceError::InvalidAuctionDuration => 31,
            MarketplaceError::SelfBidNotAllowed => 32,
            MarketplaceError::InvalidOfferState => 33,
            MarketplaceError::OfferExpired => 34,
            MarketplaceError::OfferLimitReached => 35,
            MarketplaceError::BatchTooLarge => 36,
            MarketplaceError::AlreadyMigrated => 37,
            MarketplaceError::SelfPurchaseNotAllowed => 38,
            MarketplaceError::PriceOutOfBounds => 39,
            MarketplaceError::ArithmeticOverflow => 40,
            MarketplaceError::AdminProposalExpired => 41,
            MarketplaceError::NoAdminProposalPending => 42,
            MarketplaceError::ZeroRecipientBps => 43,
            MarketplaceError::DuplicateRecipient => 44,
            MarketplaceError::InvalidAuctionState => 45,
            MarketplaceError::NoBidToRefund => 46,
            MarketplaceError::InvalidExtensionWindow => 47,
            MarketplaceError::MaxExtensionsReached => 48,
            MarketplaceError::NotTokenOwner => 49,
            MarketplaceError::TokenAlreadyEscrowed => 50,
            MarketplaceError::AuctionDurationLimitReached => 51,
            MarketplaceError::NoRoleProposalPending => 52,
            MarketplaceError::RoleProposalExpired => 53,
            MarketplaceError::RoleTransferToSelf => 54,
            MarketplaceError::RoleTransferToContract => 55,
            MarketplaceError::TreasuryProposalExpired => 56,
            MarketplaceError::NoTreasuryProposalPending => 57,
            MarketplaceError::TreasuryProposalSelf => 58,
            MarketplaceError::InvalidListingDuration => 59,
            MarketplaceError::CollectionIncompatible => 60,
            MarketplaceError::BatchItemInvalid => 61,
            MarketplaceError::OwnershipMismatch => 62,
            MarketplaceError::RoyaltyAlreadyClaimed => 63,
            MarketplaceError::RoyaltyClaimNotFound => 64,
            MarketplaceError::ReservationWindowActive => 65,
            MarketplaceError::InvalidReservationWindow => 66,
        }
    }

    /// The error whose code is `c`, if any.
    pub fn from_code(c: u32) -> (r: Option<MarketplaceError>)
        ensures
            r is None <==> !(1 <= c <= MAX_ERROR_CODE),
            r matches Some(e) ==> error_code(e) == c,
    {
        match c {
            1 => Some(MarketplaceError::InvalidCid),
            2 => Some(MarketplaceError::InvalidPrice),
            3 => Some(MarketplaceError::ListingNotFound),
            4 => Some(MarketplaceError::ListingNotActive),
            5 => Some(MarketplaceError::Unauthorized),
            6 => Some(MarketplaceError::CannotBuyOwnListing),
            7 => Some(MarketplaceError::InvalidSplit),
            8 => Some(MarketplaceError::TooManyRecipients),
            9 => Some(MarketplaceError::AuctionNotFound),
            10 => Some(MarketplaceError::AuctionNotActive),
            11 => Some(MarketplaceError::BidTooLow),
            12 => Some(MarketplaceError::AuctionExpired),
            13 => Some(MarketplaceError::AuctionNotExpired),
            14 => Some(MarketplaceError::AuctionAlreadyFinalized),
            15 => Some(MarketplaceError::ArtistRevoked),
            16 => Some(MarketplaceError::OfferNotFound),
            17 => Some(MarketplaceError::CannotOfferOwnListing),
            18 => Some(MarketplaceError::OfferNotPending),
            19 => Some(MarketplaceError::InsufficientOfferAmount),
            20 => Some(MarketplaceError::ListingSold),
            21 => Some(MarketplaceError::ListingCancelled),
            22 => Some(MarketplaceError::ReentrancyGuard),
            23 => Some(MarketplaceError::ContractPaused),
            24 => Some(MarketplaceError::InvalidRoyalty),
            25 => Some(MarketplaceError::TokenNotWhitelisted),
            26 => Some(MarketplaceError::RoyaltyExceedsLimit),
            27 => Some(MarketplaceError::ListingExpired),
            28 => Some(MarketplaceError::ListingNotExpired),
            29 => Some(MarketplaceError::AuctionNotEnded),
            30 => Some(MarketplaceError::AuctionHasBids),
            31 => Some(MarketplaceError::InvalidAuctionDuration),
            32 => Some(MarketplaceError::SelfBidNotAllowed),
            33 => Some(MarketplaceError::InvalidOfferState),
            34 => Some(MarketplaceError::OfferExpired),
            35 => Some(MarketplaceError::OfferLimitReached),
            36 => Some(MarketplaceError::BatchTooLarge),
            37 => Some(MarketplaceError::AlreadyMigrated),
            38 => Some(MarketplaceError::SelfPurchaseNotAllowed),
            39 => Some(MarketplaceError::PriceOutOfBounds),
            40 => Some(MarketplaceError::ArithmeticOverflow),
            41 => Some(MarketplaceError::AdminProposalExpired),
            42 => Some(MarketplaceError::NoAdminProposalPending),
            43 => Some(MarketplaceError::ZeroRecipientBps),
            44 => Some(MarketplaceError::DuplicateRecipient),
            45 => Some(MarketplaceError::InvalidAuctionState),
            46 => Some(MarketplaceError::NoBidToRefund),
            47 => Some(MarketplaceError::InvalidExtensionWindow),
            48 => Some(MarketplaceError::MaxExtensionsReached),
            49 => Some(MarketplaceError::NotTokenOwner),
            50 => Some(MarketplaceError::TokenAlreadyEscrowed),
            51 => Some(MarketplaceError::AuctionDurationLimitReached),
            52 => Some(MarketplaceError::NoRoleProposalPending),
            53 => Some(MarketplaceError::RoleProposalExpired),
            54 => Some(MarketplaceError::RoleTransferToSelf),
            55 => Some(MarketplaceError::RoleTransferToContract),
            56 => Some(MarketplaceError::TreasuryProposalExpired),
            57 => Some(MarketplaceError::NoTreasuryProposalPending),
            58 => Some(MarketplaceError::TreasuryProposalSelf),
            59 => Some(MarketplaceError::InvalidListingDuration),
            60 => Some(MarketplaceError::CollectionIncompatible),
            61 => Some(MarketplaceError::BatchItemInvalid),
            62 => Some(MarketplaceError::OwnershipMismatch),
            63 => Some(MarketplaceError::RoyaltyAlreadyClaimed),
            64 => Some(MarketplaceError::RoyaltyClaimNotFound),
            65 => Some(MarketplaceError::ReservationWindowActive),
            66 => Some(MarketplaceError::InvalidReservationWindow),
            _ => None,
        }
    }
}

/// Every error code lies in `1..=MAX_ERROR_CODE`.
pub proof fn lemma_error_code_in_range(e: MarketplaceError)
    ensures
        1 <= error_code(e) <= MAX_ERROR_CODE,
{
}

/// Two errors with the same code are the same error: the code identifies the
/// failure unambiguously.
pub proof fn lemma_error_code_injective(a: MarketplaceError, b: MarketplaceError)
    requires
        error_code(a) == error_code(b),
    ensures
        a == b,
{
}

/// Decoding the code of an error gives that error back.
pub proof fn lemma_error_code_round_trip(e: MarketplaceError, r: Option<MarketplaceError>)
    requires
        r is None <==> !(1 <= error_code(e) <= MAX_ERROR_CODE),
        r matches Some(d) ==> error_code(d) == error_code(e),
    ensures
        r == Some(e),
{
}

/// Why a listing was cancelled, as carried by the cancellation event.
#[derive(Clone, Copy, Debug, PartialEq, Eq, Structural)]
pub enum CancelReason {
    /// The listing's owner cancelled it.
    Owner,
    /// The listing passed its expiry and was closed.
    Expired,
    /// A collection administrator revoked the artist.
    AdminRevoked,
}

/// The numeric discriminant of a cancellation reason.
pub open spec fn cancel_reason_code(r: CancelReason) -> u32 {
    match r {
        CancelReason::Owner => 1,
        CancelReason::Expired => 2,
        CancelReason::AdminRevoked => 3,
    }
}

impl CancelReason {
    /// The numeric discriminant under which the reason is reported.
    pub fn code(&self) -> (c: u32)
        ensures
            c == cancel_reason_code(*self),
    {
        match self {
            CancelReason::Owner => 1,
            CancelReason::Expired => 2,
            CancelReason::AdminRevoked => 3,
        }
    }

    /// The reason whose discriminant is `c`, if any.
    pub fn from_code(c: u32) -> (r: Option<CancelReason>)
        ensures
            r is None <==> !(1 <= c <= 3),
            r matches Some(x) ==> cancel_reason_code(x) == c,
    {
        match c {
            1 => Some(CancelReason::Owner),
            2 => Some(CancelReason::Expired),
            3 => Some(CancelReason::AdminRevoked),
            _ => None,
        }
    }
}

/// Reported when one item of a batch fails validation: which item, and why.
#[derive(Clone, Copy, Debug, PartialEq, Eq, Structural)]
pub struct BatchItemError {
    /// Zero-based index of the item that failed.
    pub item_index: u32,
    /// The code of the marketplace error that describes the failure.
    pub error_code: u32,
}

impl BatchItemError {
    /// The report for item `item_index` failing with `error`.
    pub fn new(item_index: u32, error: MarketplaceError) -> (r: BatchItemError)
        ensures
            r.item_index == item_index,
            r.error_code == error_code(error),
    {
        BatchItemError { item_index, error_code: error.code() }
    }
}

} // verus!
