//! Configuration: the watchlist of chains and contracts.

pub mod watchlist;
