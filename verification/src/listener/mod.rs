//! A listener configuration with one launch and one graduation target per
//! chain, and what a chain's listener announces as it starts.

pub mod sublistener;
pub mod watchlist;
