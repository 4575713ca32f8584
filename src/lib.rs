//! Escrow-based listing and auction engine for one-of-a-kind wine tokens.
//!
//! The engine holds listings, auctions and marketplace-wide statistics. Every
//! operation takes the caller, the current time and the attached payment as
//! explicit values, checks all of its preconditions before it changes
//! anything, and returns the asset and payment transfers that the hosting
//! ledger must carry out.
//!
//! Beside the engine stands the wine registry: producers register wines,
//! users rate them, and certification authorities certify them. The engine
//! does not consult it.
pub mod types;
pub mod fee;
pub mod records;
pub mod listing;
pub mod auction;
pub mod stats;
pub mod marketplace;
pub mod registry;
