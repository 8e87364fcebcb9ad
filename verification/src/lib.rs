//! Payloads for a benchmark that drives transactions against a ledger, and
//! the weighted mixture of payloads that stands for a mixed workload.
//!
//! `payload` holds the interface that every kind of payload implements,
//! `combination` the mixture, `sampling` the alias table and the random
//! source behind its draws, `types` the ledger's identifiers, and `laws` what
//! holds of a mixture over any number of regenerations.
pub mod combination;
pub mod laws;
pub mod payload;
pub mod sampling;
pub mod types;
