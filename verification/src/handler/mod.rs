//! The ledger operations.

pub mod ecosystem;
