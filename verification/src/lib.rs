//! Signature-verification core for incoming layer-2 transactions.
//!
//! The library decides, for a single transaction or an ordered batch of
//! transactions, whether the claimed off-chain and on-chain authorizations
//! are valid, and wraps the outcome in a [`protocol::VerifiedTx`] that can
//! only be produced by a successful verification. On-chain lookups (key-change
//! authorizations, contract-validated signatures) and the structural
//! self-check of a transaction are external capabilities: their answers are
//! gathered by the surrounding process and handed in as plain values, so the
//! whole decision protocol is verified.

pub mod chain;
pub mod crypto;
pub mod data;
pub mod engine;
pub mod laws;
pub mod protocol;
