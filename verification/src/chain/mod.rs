//! The on-chain surface: raw logs, the watched event ABIs, the token-fact
//! cache and the log-to-detection enrichment step.

pub mod cache;
pub mod contracts;
pub mod enrich;
pub mod log;
pub mod price;
