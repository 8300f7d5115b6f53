//! A small ledger of user credit balances.
//!
//! The crate holds the account data model, the four ledger operations
//! (set, get, alter, transfer) with their invariants, the message types that
//! carry requests and replies, and the optimistic-concurrency discipline that
//! keeps concurrent requests against one account from losing updates.

mod clock;
pub mod bot;
pub mod concurrency;
pub mod error;
pub mod handler;
pub mod laws;
pub mod ledger;
pub mod message;
pub mod model;
pub mod repository;
pub mod router;
pub mod store;
