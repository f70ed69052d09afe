//! A single-seller English auction with escrowed deposits.
//!
//! Bidders deposit funds into a per-auction escrow, the highest bid at the
//! deadline wins, the seller collects the winning amount once, and every other
//! bidder reclaims its own deposit once.
pub mod identity;
pub mod errors;
pub mod ledger;
pub mod state;
pub mod escrow;
pub mod auction;
pub mod laws;
