//! Donation attribution for a network of charities and projects: per-donor
//! ledgers and profiles, one cumulative badge per donor, deterministic badge
//! metadata, exact batch splitting and fixed-point amount formatting.

pub mod address;
pub mod amount;
pub mod attributes;
pub mod bytes;
pub mod charity;
pub mod collection;
pub mod engine;
pub mod error;
pub mod factory;
pub mod format;
pub mod laws;
pub mod ledger;
pub mod model;
pub mod project;
pub mod registry;
pub mod request;
pub mod split;
pub mod stats;
