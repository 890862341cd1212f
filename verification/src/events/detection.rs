//! The `Detection` payload, emitted by the listener's enrichment step. Every
//! field beyond the decoded log is best-effort: a failed view call leaves it
//! `None`.

use vstd::prelude::*;
use crate::bus::num::Dec;
use crate::config::watchlist::TargetKind;

verus! {

/// A launch or graduation, with token, launch economics and market state.
#[derive(Clone, Debug)]
pub struct Detection {
    pub chain: String,
    pub protocol: String,
    pub kind: TargetKind,
    pub event: &'static str,
    pub token: TokenInfo,
    pub creator: String,
    pub launcher: Option<String>,
    pub dev_buy: Option<DevBuy>,
    pub quote_token: Option<TokenRef>,
    pub economics: Economics,
    pub market: MarketKind,
    pub curve: Option<CurveState>,
    pub pool: Option<PoolState>,
    pub valuation: Option<Valuation>,
    pub tx_hash: String,
    pub block_number: u64,
    pub log_index: u64,
    pub block_timestamp: Option<u64>,
    pub observed_at: String,
}

/// The detected token and its immutable ERC-20 facts.
#[derive(Clone, Debug)]
pub struct TokenInfo {
    pub address: String,
    pub name: Option<String>,
    pub symbol: Option<String>,
    pub decimals: Option<u8>,
    pub total_supply: Option<Dec>,
}

/// A token referenced by the launch, such as its quote asset.
#[derive(Clone, Debug)]
pub struct TokenRef {
    pub address: String,
    pub symbol: Option<String>,
    pub decimals: Option<u8>,
}

/// What the creator bought at launch.
#[derive(Clone, Copy, Debug)]
pub struct DevBuy {
    pub tokens: Option<Dec>,
    pub quote: Option<Dec>,
    /// Share of the total supply, in basis points.
    pub pct_bps: Option<u32>,
}

/// Launch parameters read from the curve or the factory.
#[derive(Clone, Copy, Debug)]
pub struct Economics {
    pub graduation_threshold: Option<Dec>,
    pub phantom_quote: Option<Dec>,
    pub curve_fee_bps: Option<u32>,
    pub creator_tax_bps: Option<u32>,
    pub anti_snipe: Option<AntiSnipe>,
    pub snipe_tax: Option<SnipeTax>,
}

impl Default for Economics {
    /// Every field unknown.
    fn default() -> (r: Economics)
        ensures
            r.graduation_threshold is None,
            r.phantom_quote is None,
            r.curve_fee_bps is None,
            r.creator_tax_bps is None,
            r.anti_snipe is None,
            r.snipe_tax is None,
    {
        Economics {
            graduation_threshold: None,
            phantom_quote: None,
            curve_fee_bps: None,
            creator_tax_bps: None,
            anti_snipe: None,
            snipe_tax: None,
        }
    }
}

/// Anti-snipe limits.
#[derive(Clone, Copy, Debug)]
pub struct AntiSnipe {
    pub max_wallet_bps: Option<u32>,
    pub max_tx_bps: Option<u32>,
    pub restriction_end_block: Option<u64>,
}

/// Decaying snipe tax.
#[derive(Clone, Copy, Debug)]
pub struct SnipeTax {
    pub start_bps: Option<u32>,
    pub decay_secs: Option<u32>,
    pub launched_at: Option<u64>,
}

/// Where the token trades right now: `BondingCurve` before graduation,
/// `Pool` after (and for protocols that launch straight into a DEX). The
/// matching `curve` / `pool` object on [`Detection`] carries the detail.
#[derive(Clone, Copy, Debug, PartialEq, Eq, Structural)]
pub enum MarketKind {
    BondingCurve,
    Pool,
}

/// Bonding-curve state at detection.
#[derive(Clone, Debug)]
pub struct CurveState {
    pub address: String,
    pub real_quote_reserve: Option<Dec>,
    pub token_reserve: Option<Dec>,
    pub progress_bps: Option<u32>,
    pub price_native: Option<String>,
}

/// DEX pool state at detection.
#[derive(Clone, Debug)]
pub struct PoolState {
    pub venue: Option<String>,
    /// Pool address, or the Uniswap V4 pool id.
    pub address: Option<String>,
    pub position_id: Option<Dec>,
    pub router: Option<String>,
    pub reserve_token: Option<Dec>,
    pub reserve_quote: Option<Dec>,
    pub price_native: Option<String>,
}

/// Native-denominated valuation.
#[derive(Clone, Debug)]
pub struct Valuation {
    pub price_native: Option<String>,
    pub liquidity_native: Option<Dec>,
    pub fdv_native: Option<Dec>,
}

} // verus!
