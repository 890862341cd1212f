//! Typed views of the watched on-chain events and ERC-20 metadata, shared
//! with [`crate::contracts`]: the same signatures, indexed layout and
//! decoding.

pub use crate::contracts::{decode, DecodedEvent, Launched, TokenLaunched, TokenMetadata};
pub use crate::chain::contracts::PoolGraduated;
