//! The persisted data model of the ledger.

pub mod ecosystem;
