//! Deterministic fortunes read out of a SHA-256 digest of a (year, user) pair,
//! together with a compact random-walk fingerprint of the same digest.

pub mod digest;
pub mod art;
pub mod catalog;
pub mod fields;
pub mod fortune;
pub mod cli;
