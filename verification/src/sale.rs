//! Primary sales: a collection's items are minted to buyers at a fixed unit
//! price, one after the other, with an optional whitelist, an optional start
//! time and an optional limit on how many items one buyer may hold.
//!
//! Like the marketplace, a sale is a state machine over its state
//! ([`state::SaleState`]): every action returns the effects for the host to
//! carry out, or fails without changing anything.

pub mod address_set;
pub mod contract;
pub mod expiration;
pub mod funds;
pub mod laws;
pub mod model;
pub mod msg;
pub mod state;
