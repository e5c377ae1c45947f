//! Declarative synchronization of monetization resources (game passes,
//! developer products, badges) against a remote platform.
//!
//! The library is the reconciliation engine: for each declared resource it
//! decides whether to create, update, or skip it, tracks remote identifiers
//! across runs in a persisted ledger, and deduplicates icon uploads by
//! content hash. All remote I/O is performed by the caller, which drives the
//! state machines defined here; the decisions themselves are verified.

pub mod config;
pub mod directory;
pub mod errors;
pub mod export;
pub mod fields;
pub mod fingerprint;
pub mod json;
pub mod reconcile;
pub mod state;
pub mod text;
pub mod upload;
