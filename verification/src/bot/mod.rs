//! The chat bot that runs beside the ledger.

pub mod qq;
