//! Executor payloads. `TradeIntent` is what the executor would submit; no
//! transaction is built, so `dry_run` is always true.

use vstd::prelude::*;
use crate::bus::num::Dec;
use crate::config::watchlist::TargetKind;

verus! {

/// A buy the executor would place on a signal.
#[derive(Clone, Debug)]
pub struct TradeIntent {
    pub chain: String,
    pub token: String,
    pub symbol: Option<String>,
    /// Protocol the signal came from.
    pub source: String,
    pub kind: TargetKind,
    /// `bonding_curve`, `uniswap-v4`, or a DEX name.
    pub venue: String,
    /// Contract the buy would call (curve, pool, or router).
    pub target: String,
    /// Quote asset address, `"native"`, or `"unresolved"`.
    pub quote_token: String,
    /// Size in quote base units; set only when the quote is native.
    pub amount_in: Option<Dec>,
    pub max_slippage_bps: u32,
    /// Always true: execution is not implemented.
    pub dry_run: bool,
}

} // verus!
