//! Turns a decoded log into a full [`Detection`].
//!
//! The RPC work (token facts, block timestamp, curve getters) happens
//! outside; this module decides what to read and assembles what came back.
//! Every field beyond the decoded log is best-effort: a read that failed or
//! timed out arrives as `None` and stays `None`.

use vstd::prelude::*;
use vstd::string::*;
use crate::bus::num::Dec;
use crate::chain::cache::TokenFacts;
use crate::chain::contracts::{decoded_from, DecodedEvent};
use crate::chain::log::LogRecord;
use crate::config::watchlist::TargetKind;
use crate::events::detection::{
    CurveState, Detection, DevBuy, Economics, MarketKind, PoolState, TokenInfo, TokenRef, Valuation,
};
use crate::chain::price::{price, price_text};
use crate::primitives::{checksum_text, saturating_product, u256_max, Address, U256};
use crate::text::{clone_opt, opt_text, owned, prefixed_hex};

verus! {

/// `part / whole` in basis points: `part * 10_000` (clamped at the largest
/// 256-bit value) divided by `whole`, clamped at `u32::MAX`; nothing when
/// `whole` is zero.
pub open spec fn bps_spec(part: nat, whole: nat) -> Option<u32> {
    if whole == 0 {
        None
    } else {
        let q = saturating_product(part, 10000) / whole;
        Some(
            if q > u32::MAX {
                u32::MAX
            } else {
                q as u32
            },
        )
    }
}

/// `part` of `whole` in basis points.
pub fn bps(part: &U256, whole: &U256) -> (r: Option<u32>)
    ensures
        r == bps_spec(part.value(), whole.value()),
{
    if whole.is_zero() {
        return None;
    }
    let ten_thousand = U256::from_u128(10000);
    let q = part.saturating_mul(&ten_thousand).div(whole);
    match q.to_u32() {
        Some(v) => Some(v),
        None => Some(u32::MAX),
    }
}

/// The values read from a bonding curve's getters; `None` for a read that
/// failed.
#[derive(Clone, Copy, Debug)]
pub struct CurveReads {
    pub real_quote_reserve: Option<U256>,
    pub token_reserve: Option<U256>,
    pub phantom_quote: Option<U256>,
    pub graduation_threshold: Option<U256>,
    pub pair_token: Option<Address>,
}

impl CurveReads {
    /// Nothing read.
    pub fn none() -> (r: CurveReads)
        ensures
            r.real_quote_reserve is None,
            r.token_reserve is None,
            r.phantom_quote is None,
            r.graduation_threshold is None,
            r.pair_token is None,
    {
        CurveReads {
            real_quote_reserve: None,
            token_reserve: None,
            phantom_quote: None,
            graduation_threshold: None,
            pair_token: None,
        }
    }
}

/// The raw amount wrapped for rendering, when known.
pub open spec fn dec_opt(o: Option<U256>) -> Option<Dec> {
    match o {
        Some(v) => Some(Dec(v)),
        None => None,
    }
}

/// The dev buy as a share of the supply, when the supply is known.
pub open spec fn supply_share(tokens: U256, supply: Option<U256>) -> Option<u32> {
    match supply {
        Some(ts) => bps_spec(tokens.value(), ts.value()),
        None => None,
    }
}

/// The curve whose getters the enrichment reads: only a `Launched` token
/// trades on a bonding curve.
pub open spec fn spec_curve_to_read(decoded: DecodedEvent) -> Option<Address> {
    match decoded {
        DecodedEvent::Launched(e) => Some(e.curve),
        _ => None,
    }
}

/// The quote token whose facts the enrichment reads: the curve's pair token
/// for `Launched`, the logged pair token for `TokenLaunched`.
pub open spec fn spec_quote_address(decoded: DecodedEvent, reads: CurveReads) -> Option<Address> {
    match decoded {
        DecodedEvent::Launched(_) => reads.pair_token,
        DecodedEvent::TokenLaunched(e) => Some(e.pairToken),
        DecodedEvent::PoolGraduated(_) => None,
    }
}

/// Which curve, if any, to read for this event.
pub fn curve_to_read(decoded: &DecodedEvent) -> (r: Option<Address>)
    ensures
        r == spec_curve_to_read(*decoded),
{
    match decoded {
        DecodedEvent::Launched(e) => Some(e.curve),
        _ => None,
    }
}

/// Which quote token, if any, to read facts for.
pub fn quote_address(decoded: &DecodedEvent, reads: &CurveReads) -> (r: Option<Address>)
    ensures
        r == spec_quote_address(*decoded, *reads),
{
    match decoded {
        DecodedEvent::Launched(_) => reads.pair_token,
        DecodedEvent::TokenLaunched(e) => Some(e.pairToken),
        DecodedEvent::PoolGraduated(_) => None,
    }
}

/// `r` references the token at `a` with facts `f`.
pub open spec fn token_ref_of(r: TokenRef, a: Address, f: TokenFacts) -> bool {
    &&& r.address@ == checksum_text(a.bytes@)
    &&& opt_text(r.symbol) == opt_text(f.symbol)
    &&& r.decimals == f.decimals
}

/// A reference to the token at `addr` with its cached facts.
pub fn token_ref(addr: &Address, facts: &TokenFacts) -> (r: TokenRef)
    ensures
        token_ref_of(r, *addr, *facts),
{
    TokenRef {
        address: addr.to_checksum_string(),
        symbol: clone_opt(&facts.symbol),
        decimals: facts.decimals,
    }
}

/// The text of an optional transaction hash: its hex form, or empty.
pub open spec fn tx_hash_text(log: LogRecord) -> Seq<char> {
    match log.transaction_hash {
        Some(h) => prefixed_hex(h.bytes@),
        None => Seq::empty(),
    }
}

/// The native price of a market holding `quote` against `token`, both
/// known and the token side non-zero: [`price_text`] of the two reserves.
pub open spec fn price_of(quote: Option<U256>, token: Option<U256>) -> Option<Seq<char>> {
    match (quote, token) {
        (Some(q), Some(t)) => if t.value() > 0 {
            Some(price_text(q.value(), t.value()))
        } else {
            None
        },
        _ => None,
    }
}

/// The amount a `Dec` stands for.
pub open spec fn dec_value(o: Option<Dec>) -> Option<nat> {
    match o {
        Some(d) => Some(d.value()),
        None => None,
    }
}

/// The fully diluted value in quote base units: price times supply,
/// `quote * supply / token` rounded down, when the supply is known and the
/// product fits 256 bits.
pub open spec fn fdv_of(quote: nat, token: nat, supply: Option<U256>) -> Option<nat> {
    match supply {
        Some(s) => if quote * s.value() <= u256_max() {
            Some((quote * s.value()) / token)
        } else {
            None
        },
        None => None,
    }
}

/// `v` values a market holding `quote` against `token` of a token with
/// `supply`: present exactly when a price is, with that price, the quote
/// reserve as liquidity and the fully diluted value.
pub open spec fn valuation_of(
    v: Option<Valuation>,
    quote: Option<U256>,
    token: Option<U256>,
    supply: Option<U256>,
) -> bool {
    match price_of(quote, token) {
        None => v is None,
        Some(p) => v matches Some(val) && {
            &&& opt_text(val.price_native) == Some(p)
            &&& val.liquidity_native == dec_opt(quote)
            &&& dec_value(val.fdv_native) == fdv_of(
                quote->0.value(),
                token->0.value(),
                supply,
            )
        },
    }
}

/// The fields every detection takes from its log, token facts and context.
pub open spec fn common_fields(
    d: Detection,
    chain: Seq<char>,
    protocol: Seq<char>,
    kind: TargetKind,
    decoded: DecodedEvent,
    log: LogRecord,
    facts: TokenFacts,
    block_timestamp: Option<u64>,
    observed_at: Seq<char>,
) -> bool {
    &&& d.chain@ == chain
    &&& d.protocol@ == protocol
    &&& d.kind == kind
    &&& d.event@ == match decoded {
        DecodedEvent::PoolGraduated(_) => "PoolGraduated"@,
        DecodedEvent::Launched(_) => "Launched"@,
        DecodedEvent::TokenLaunched(_) => "TokenLaunched"@,
    }
    &&& d.token.address@ == checksum_text(decoded.spec_token().bytes@)
    &&& opt_text(d.token.name) == opt_text(facts.name)
    &&& opt_text(d.token.symbol) == opt_text(facts.symbol)
    &&& d.token.decimals == facts.decimals
    &&& d.token.total_supply == dec_opt(facts.total_supply)
    &&& d.tx_hash@ == tx_hash_text(log)
    &&& d.block_number == match log.block_number {
        Some(n) => n,
        None => 0,
    }
    &&& d.log_index == match log.log_index {
        Some(n) => n,
        None => 0,
    }
    &&& d.block_timestamp == block_timestamp
    &&& d.observed_at@ == observed_at
}

/// The event-specific fields: creator, dev buy, quote token, economics and
/// market state.
pub open spec fn event_fields(
    d: Detection,
    decoded: DecodedEvent,
    facts: TokenFacts,
    reads: CurveReads,
    quote_facts: TokenFacts,
) -> bool {
    match decoded {
        DecodedEvent::Launched(e) => {
            &&& d.market == MarketKind::BondingCurve
            &&& d.pool is None
            &&& d.curve matches Some(c) && {
                &&& c.address@ == checksum_text(e.curve.bytes@)
                &&& c.real_quote_reserve == dec_opt(reads.real_quote_reserve)
                &&& c.token_reserve == dec_opt(reads.token_reserve)
                &&& c.progress_bps == match (reads.real_quote_reserve, reads.graduation_threshold) {
                    (Some(r), Some(g)) => bps_spec(r.value(), g.value()),
                    _ => None,
                }
                &&& opt_text(c.price_native) == price_of(
                    reads.real_quote_reserve,
                    reads.token_reserve,
                )
            }
            &&& valuation_of(
                d.valuation,
                reads.real_quote_reserve,
                reads.token_reserve,
                facts.total_supply,
            )
            &&& d.creator@ == checksum_text(e.recipient.bytes@)
            &&& opt_text(d.launcher) == Some(checksum_text(e.launcher.bytes@))
            &&& d.dev_buy == Some(
                DevBuy {
                    tokens: Some(Dec(e.tokensReceived)),
                    quote: Some(Dec(e.quoteSpent)),
                    pct_bps: supply_share(e.tokensReceived, facts.total_supply),
                },
            )
            &&& d.economics.phantom_quote == dec_opt(reads.phantom_quote)
            &&& d.economics.graduation_threshold == dec_opt(reads.graduation_threshold)
            &&& d.economics.curve_fee_bps is None
            &&& d.economics.creator_tax_bps is None
            &&& d.economics.anti_snipe is None
            &&& d.economics.snipe_tax is None
            &&& match reads.pair_token {
                Some(p) => d.quote_token matches Some(q) && token_ref_of(q, p, quote_facts),
                None => d.quote_token is None,
            }
        },
        DecodedEvent::PoolGraduated(e) => {
            &&& d.market == MarketKind::Pool
            &&& d.curve is None
            &&& d.pool matches Some(p) && {
                &&& opt_text(p.venue) == Some("uniswap-v4"@)
                &&& p.address is None
                &&& p.position_id == Some(Dec(e.positionId))
                &&& p.router is None
                &&& p.reserve_token == Some(Dec(e.tokenAmount))
                &&& p.reserve_quote == Some(Dec(e.pairTokenAmount))
                &&& opt_text(p.price_native) == price_of(
                    Some(e.pairTokenAmount),
                    Some(e.tokenAmount),
                )
            }
            &&& valuation_of(
                d.valuation,
                Some(e.pairTokenAmount),
                Some(e.tokenAmount),
                facts.total_supply,
            )
            &&& d.creator@ == Seq::<char>::empty()
            &&& d.launcher is None
            &&& d.dev_buy is None
            &&& d.quote_token is None
            &&& d.economics == Economics {
                graduation_threshold: None,
                phantom_quote: None,
                curve_fee_bps: None,
                creator_tax_bps: None,
                anti_snipe: None,
                snipe_tax: None,
            }
        },
        DecodedEvent::TokenLaunched(e) => {
            &&& d.market == MarketKind::Pool
            &&& d.curve is None
            &&& d.pool matches Some(p) && {
                &&& p.venue is None
                &&& opt_text(p.address) == Some(checksum_text(e.pool.bytes@))
                &&& p.position_id == Some(Dec(e.positionId))
                &&& p.router is None
                &&& p.reserve_token is None
                &&& p.reserve_quote is None
                &&& p.price_native is None
            }
            &&& d.valuation is None
            &&& d.creator@ == checksum_text(e.deployer.bytes@)
            &&& d.launcher is None
            &&& d.dev_buy == Some(
                DevBuy {
                    tokens: Some(Dec(e.initialBuyAmount)),
                    quote: None,
                    pct_bps: supply_share(e.initialBuyAmount, facts.total_supply),
                },
            )
            &&& d.quote_token matches Some(q) && token_ref_of(q, e.pairToken, quote_facts)
            &&& d.economics == Economics {
                graduation_threshold: None,
                phantom_quote: None,
                curve_fee_bps: None,
                creator_tax_bps: None,
                anti_snipe: None,
                snipe_tax: None,
            }
        },
    }
}

fn dec_of(o: Option<U256>) -> (r: Option<Dec>)
    ensures
        r == dec_opt(o),
{
    match o {
        Some(v) => Some(Dec(v)),
        None => None,
    }
}

fn share_of(tokens: &U256, supply: Option<U256>) -> (r: Option<u32>)
    ensures
        r == supply_share(*tokens, supply),
{
    match supply {
        Some(ts) => bps(tokens, &ts),
        None => None,
    }
}

fn price_opt(quote: Option<U256>, token: Option<U256>) -> (r: Option<String>)
    ensures
        opt_text(r) == price_of(quote, token),
{
    match (quote, token) {
        (Some(q), Some(t)) => price(&q, &t),
        _ => None,
    }
}

fn valuation(quote: Option<U256>, token: Option<U256>, supply: Option<U256>) -> (v: Option<
    Valuation,
>)
    ensures
        valuation_of(v, quote, token, supply),
{
    match (quote, token) {
        (Some(q), Some(t)) => match price(&q, &t) {
            None => None,
            Some(p) => {
                let fdv = match supply {
                    Some(s) => match q.checked_mul(&s) {
                        Some(m) => Some(Dec(m.div(&t))),
                        None => None,
                    },
                    None => None,
                };
                Some(
                    Valuation {
                        price_native: Some(p),
                        liquidity_native: Some(Dec(q)),
                        fdv_native: fdv,
                    },
                )
            },
        },
        _ => None,
    }
}

/// Builds the detection for a decoded log from what the RPC returned:
/// `facts` for the token, `block_timestamp`, the curve `reads` (for a
/// bonding-curve launch) and `quote_facts` for the token that
/// [`quote_address`] names. `observed_at` is the local wall-clock time.
/// Where both reserves of the market are known (the curve's reserves, or a
/// graduation's pool amounts) the native price and the valuation are
/// derived from them.
pub fn build_detection(
    chain: &str,
    protocol: &str,
    kind: TargetKind,
    decoded: &DecodedEvent,
    log: &LogRecord,
    facts: TokenFacts,
    block_timestamp: Option<u64>,
    reads: &CurveReads,
    quote_facts: &TokenFacts,
    observed_at: String,
) -> (d: Detection)
    ensures
        common_fields(
            d,
            chain@,
            protocol@,
            kind,
            *decoded,
            *log,
            facts,
            block_timestamp,
            observed_at@,
        ),
        event_fields(d, *decoded, facts, *reads, *quote_facts),
        d.market == MarketKind::BondingCurve <==> decoded is Launched,
        d.market == MarketKind::BondingCurve ==> d.curve is Some && d.pool is None,
        d.market == MarketKind::Pool ==> d.pool is Some && d.curve is None,
{
    let token_addr = decoded.token();
    let total_supply = facts.total_supply;
    let token = TokenInfo {
        address: token_addr.to_checksum_string(),
        name: facts.name,
        symbol: facts.symbol,
        decimals: facts.decimals,
        total_supply: dec_of(total_supply),
    };
    let mut economics = Economics::default();
    let mut quote_token: Option<TokenRef> = None;
    let mut curve: Option<CurveState> = None;
    let mut pool: Option<PoolState> = None;
    let mut valuation_v: Option<Valuation> = None;
    let creator: String;
    let launcher: Option<String>;
    let dev_buy: Option<DevBuy>;
    let market: MarketKind;
    match decoded {
        DecodedEvent::Launched(e) => {
            economics.phantom_quote = dec_of(reads.phantom_quote);
            economics.graduation_threshold = dec_of(reads.graduation_threshold);
            if let Some(addr) = reads.pair_token {
                quote_token = Some(token_ref(&addr, quote_facts));
            }
            let progress_bps = match (reads.real_quote_reserve, reads.graduation_threshold) {
                (Some(r), Some(g)) => bps(&r, &g),
                _ => None,
            };
            curve = Some(
                CurveState {
                    address: e.curve.to_checksum_string(),
                    progress_bps,
                    real_quote_reserve: dec_of(reads.real_quote_reserve),
                    token_reserve: dec_of(reads.token_reserve),
                    price_native: price_opt(reads.real_quote_reserve, reads.token_reserve),
                },
            );
            valuation_v = valuation(reads.real_quote_reserve, reads.token_reserve, total_supply);
            creator = e.recipient.to_checksum_string();
            launcher = Some(e.launcher.to_checksum_string());
            dev_buy = Some(
                DevBuy {
                    tokens: Some(Dec(e.tokensReceived)),
                    quote: Some(Dec(e.quoteSpent)),
                    pct_bps: share_of(&e.tokensReceived, total_supply),
                },
            );
            market = MarketKind::BondingCurve;
        },
        DecodedEvent::PoolGraduated(e) => {
            pool = Some(
                PoolState {
                    venue: Some(owned("uniswap-v4")),
                    address: None,
                    position_id: Some(Dec(e.positionId)),
                    router: None,
                    reserve_token: Some(Dec(e.tokenAmount)),
                    reserve_quote: Some(Dec(e.pairTokenAmount)),
                    price_native: price_opt(Some(e.pairTokenAmount), Some(e.tokenAmount)),
                },
            );
            valuation_v = valuation(Some(e.pairTokenAmount), Some(e.tokenAmount), total_supply);
            creator = String::new();
            launcher = None;
            dev_buy = None;
            market = MarketKind::Pool;
        },
        DecodedEvent::TokenLaunched(e) => {
            quote_token = Some(token_ref(&e.pairToken, quote_facts));
            pool = Some(
                PoolState {
                    venue: None,
                    address: Some(e.pool.to_checksum_string()),
                    position_id: Some(Dec(e.positionId)),
                    router: None,
                    reserve_token: None,
                    reserve_quote: None,
                    price_native: None,
                },
            );
            creator = e.deployer.to_checksum_string();
            launcher = None;
            dev_buy = Some(
                DevBuy {
                    tokens: Some(Dec(e.initialBuyAmount)),
                    quote: None,
                    pct_bps: share_of(&e.initialBuyAmount, total_supply),
                },
            );
            market = MarketKind::Pool;
        },
    }
    let tx_hash = match &log.transaction_hash {
        Some(h) => h.to_hex_string(),
        None => String::new(),
    };
    let block_number = match log.block_number {
        Some(n) => n,
        None => 0,
    };
    let log_index = match log.log_index {
        Some(n) => n,
        None => 0,
    };
    Detection {
        chain: owned(chain),
        protocol: owned(protocol),
        kind,
        event: decoded.name(),
        token,
        creator,
        launcher,
        dev_buy,
        quote_token,
        economics,
        market,
        curve,
        pool,
        valuation: valuation_v,
        tx_hash,
        block_number,
        log_index,
        block_timestamp,
        observed_at,
    }
}

/// The detection is about the log's token: its token address is the
/// checksummed address of the log's first indexed topic, whatever the event.
pub proof fn lemma_detection_names_the_token(
    d: Detection,
    chain: Seq<char>,
    protocol: Seq<char>,
    kind: TargetKind,
    decoded: DecodedEvent,
    log: LogRecord,
    facts: TokenFacts,
    block_timestamp: Option<u64>,
    observed_at: Seq<char>,
)
    requires
        decoded_from(decoded, log),
        common_fields(d, chain, protocol, kind, decoded, log, facts, block_timestamp, observed_at),
    ensures
        d.token.address@ == checksum_text(log.topic_address(1)),
{
    crate::chain::contracts::lemma_token_is_first_topic(decoded, log);
}

} // verus!
