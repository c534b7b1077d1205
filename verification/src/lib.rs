//! Screening of financial transactions: what a transaction is, which of them
//! are suspicious and why, and what becomes of each one on its way through the
//! pipeline.
pub mod amount;
pub mod counters;
pub mod filters;
pub mod ingestion;
pub mod outbound;
pub mod processor;
pub mod rules;
pub mod timestamp;
pub mod transaction;
pub mod velocity_laws;
pub mod velocity_tracker;
