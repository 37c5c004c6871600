//! Rules of an NFT marketplace: fixed-price listings, English auctions and
//! offers; the division of sale proceeds between royalty, protocol fee and
//! payees; governance (two-step transfers, roles, configuration); the
//! payment-token registry, circuit breakers and settlement locks; paged
//! indexes and their migration; and models of the collection and token
//! contracts the marketplace talks to.
//!
//! Every entry point is a function from the state it reads to the state it
//! writes and the payments it owes; moving tokens and money is left to the
//! caller.

// Shared vocabulary.
pub mod errors;
pub mod types;

// Proceeds of a sale.
pub mod recipients;
pub mod settlement;
pub mod royalty_claims;

// Listings.
pub mod listing;
pub mod creation;
pub mod updates;
pub mod purchase;
pub mod custody;
pub mod batch;

// Offers.
pub mod offers;
pub mod offer_sale;

// Auctions.
pub mod auction;
pub mod bid_history;
pub mod closing;

// Governance and safety.
pub mod proposals;
pub mod roles;
pub mod config;
pub mod whitelist;
pub mod pause;
pub mod guards;
pub mod revocation;

// Storage layout.
pub mod index;
pub mod migration;

// The marketplace as a whole.
pub mod holdings;
pub mod market;

// Collection and token models.
pub mod mocks;
