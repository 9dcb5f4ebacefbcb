//! An escrow marketplace for non-fungible items: fixed-price listings,
//! English auctions with refund-on-outbid, collection-wide bids, royalty-aware
//! settlement and one-way notifications to hook subscribers.
//!
//! The engine is a state machine over [`market::State`]. Every action takes
//! the state, the block environment and the caller, and returns the ordered
//! list of effects (payments, item transfers, notifications) that the host
//! carries out once the new state is committed. An action that fails changes
//! nothing.
//!
//! What each action does is laid down in [`model`]; [`execute`] and [`sudo`]
//! compute it, and [`laws`] holds what follows for every state and caller.
//! Payments are read with `cw_utils`, royalties are computed with
//! `cosmwasm_std` and versions are compared with `semver`; the few functions
//! that call them are the only ones whose contracts are taken on trust.
//!
//! [`sale`] holds the engine of primary sales, in which the items of a
//! collection are minted to their first buyers.

pub mod ask_store;
pub mod bid_store;
pub mod error;
pub mod execute;
pub mod expiry;
pub mod hooks;
pub mod keyed;
pub mod laws;
pub mod market;
pub mod migrate;
pub mod model;
pub mod msg;
pub mod order;
pub mod payment;
pub mod query;
pub mod response;
pub mod sale;
pub mod settlement;
pub mod state;
pub mod sudo;
pub mod types;
