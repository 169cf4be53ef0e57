//! Flattens one nested budget snapshot into ten independent, tab-separated
//! text tables, ready for bulk-loading into a fixed SQL schema.
//!
//! The snapshot (accounts, category groups, categories, payees, transactions
//! with embedded splits, monthly category snapshots, scheduled transactions)
//! is supplied fully materialized; this crate owns the transform only.
//! Records whose delete flag is set are dropped, every optional field is
//! rendered through one reserved NULL sentinel, monetary integers keep their
//! exact milliunit value, and the synthetic "split" category id is replaced
//! by NULL wherever a transaction points at it.

pub mod encode;
pub mod export;
pub mod laws;
pub mod model;
pub mod rows;
