//! The executor's gate. On a `Detection` it decides between a dry-run
//! `TradeIntent` and a `TradeSkipped` with the reason — no transaction, no
//! signing, no RPC.

use vstd::prelude::*;
use vstd::string::*;
use crate::bus::num::Dec;
use crate::events::detection::{Detection, MarketKind};
use crate::events::{trace_text, Event, TradeIntent};
use crate::primitives::U256;
use crate::text::{
    ascii_lower_seq, clone_opt, concat3, decimal, eq_ignore_ascii_case, opt_text, owned,
    push_decimal,
};

verus! {

/// Dev holding more than this share of supply (basis points) → skip.
pub const MAX_DEV_BUY_BPS: u32 = 2500;

/// Buy size in native base units (0.05), used only when the quote is native.
pub const BUY_SIZE_NATIVE: u128 = 50_000_000_000_000_000;

pub const MAX_SLIPPAGE_BPS: u32 = 1500;

/// The address standing for the chain's native asset.
pub const NATIVE: &'static str = "0x0000000000000000000000000000000000000000";

/// `n / d` rounded to the nearest integer, ties to the even neighbour.
pub open spec fn round_half_even(n: nat, d: nat) -> nat
    recommends
        d > 0,
{
    let q = n / d;
    let r = n % d;
    if 2 * r > d {
        q + 1
    } else if 2 * r < d {
        q
    } else if q % 2 == 0 {
        q
    } else {
        q + 1
    }
}

/// The contract the buy would go through: `(venue, target)`.
pub open spec fn route(d: Detection) -> Option<(Seq<char>, Seq<char>)> {
    match d.market {
        MarketKind::BondingCurve => match d.curve {
            Some(c) => Some(("bonding_curve"@, c.address@)),
            None => None,
        },
        MarketKind::Pool => match d.pool {
            Some(p) => match p.address {
                Some(a) => Some(
                    (
                        match p.venue {
                            Some(v) => v@,
                            None => "pool"@,
                        },
                        a@,
                    ),
                ),
                None => None,
            },
            None => None,
        },
    }
}

/// The dev buy's share of supply, when known.
pub open spec fn dev_pct(d: Detection) -> Option<u32> {
    match d.dev_buy {
        Some(b) => b.pct_bps,
        None => None,
    }
}

/// Why the executor passes on `d`, checked in order; `None` when it buys.
pub open spec fn skip_reason(d: Detection) -> Option<Seq<char>> {
    if route(d) is None {
        Some(
            match d.market {
                MarketKind::BondingCurve => "no curve address"@,
                MarketKind::Pool => "no pool address"@,
            },
        )
    } else if dev_pct(d) matches Some(pct) && pct > MAX_DEV_BUY_BPS {
        Some("dev holds "@ + decimal(round_half_even(dev_pct(d)->0 as nat, 100)) + "%"@)
    } else if d.token.symbol is None {
        Some("token metadata unreadable"@)
    } else {
        None
    }
}

/// Whether a quote address names the native asset (ASCII case ignored).
pub open spec fn is_native(addr: Seq<char>) -> bool {
    ascii_lower_seq(addr) == ascii_lower_seq(NATIVE@)
}

/// `i` is the dry-run buy proposed for `d`.
pub open spec fn intent_of(i: TradeIntent, d: Detection) -> bool {
    &&& i.chain@ == d.chain@
    &&& i.token@ == d.token.address@
    &&& opt_text(i.symbol) == opt_text(d.token.symbol)
    &&& i.source@ == d.protocol@
    &&& i.kind == d.kind
    &&& route(d) matches Some(r) && i.venue@ == r.0 && i.target@ == r.1
    &&& match d.quote_token {
        Some(q) => if is_native(q.address@) {
            i.quote_token@ == "native"@ && (i.amount_in matches Some(a) && a.value()
                == BUY_SIZE_NATIVE)
        } else {
            i.quote_token@ == q.address@ && i.amount_in is None
        },
        None => i.quote_token@ == "unresolved"@ && i.amount_in is None,
    }
    &&& i.max_slippage_bps == MAX_SLIPPAGE_BPS
    &&& i.dry_run
}

/// The executor's answer to a detection.
pub open spec fn answers(e: Event, d: Detection) -> bool {
    match e {
        Event::TradeSkipped { chain, token, source, kind, reason } => {
            &&& skip_reason(d) == Some(reason@)
            &&& chain@ == d.chain@
            &&& token@ == d.token.address@
            &&& source@ == d.protocol@
            &&& kind == d.kind
        },
        Event::TradeIntent(i) => skip_reason(d) is None && intent_of(*i, d),
        _ => false,
    }
}

/// `n / 100` rounded half to even, the way `{:.0}` renders `n as f64 / 100.0`
/// (exact at the halves, far from them otherwise).
fn percent_of_bps(n: u32) -> (r: u64)
    ensures
        r == round_half_even(n as nat, 100),
{
    let q: u64 = (n / 100) as u64;
    let rem = n % 100;
    if rem > 50 {
        q + 1
    } else if rem < 50 {
        q
    } else if q % 2 == 0 {
        q
    } else {
        q + 1
    }
}

fn skipped(d: &Detection, reason: String) -> (e: Event)
    ensures
        e matches Event::TradeSkipped { chain, token, source, kind, reason: r } && chain@
            == d.chain@ && token@ == d.token.address@ && source@ == d.protocol@ && kind == d.kind
            && r@ == reason@,
{
    Event::TradeSkipped {
        chain: owned(d.chain.as_str()),
        token: owned(d.token.address.as_str()),
        source: owned(d.protocol.as_str()),
        kind: d.kind,
        reason,
    }
}

/// Gates a detection: a contract to route through, a dev share of supply of
/// at most [`MAX_DEV_BUY_BPS`], and readable token metadata. A detection
/// that passes yields a dry-run intent, sized only for a native quote.
pub fn evaluate(d: &Detection) -> (e: Event)
    ensures
        answers(e, *d),
{
    // 1 — a contract to route the buy through
    let venue: String;
    let target: String;
    match d.market {
        MarketKind::BondingCurve => match &d.curve {
            Some(c) => {
                venue = owned("bonding_curve");
                target = owned(c.address.as_str());
            },
            None => {
                return skipped(d, owned("no curve address"));
            },
        },
        MarketKind::Pool => {
            let addr = match &d.pool {
                Some(p) => match &p.address {
                    Some(a) => a,
                    None => {
                        return skipped(d, owned("no pool address"));
                    },
                },
                None => {
                    return skipped(d, owned("no pool address"));
                },
            };
            venue = match &d.pool {
                Some(p) => match &p.venue {
                    Some(v) => owned(v.as_str()),
                    None => owned("pool"),
                },
                None => owned("pool"),
            };
            target = owned(addr.as_str());
        },
    }
    // 2 — the dev did not take too much of the supply
    let pct = match &d.dev_buy {
        Some(b) => b.pct_bps,
        None => None,
    };
    if let Some(p) = pct {
        if p > MAX_DEV_BUY_BPS {
            let mut reason = owned("dev holds ");
            push_decimal(&mut reason, percent_of_bps(p));
            reason.append("%");
            return skipped(d, reason);
        }
    }
    // 3 — the token answers basic ERC-20 calls
    if d.token.symbol.is_none() {
        return skipped(d, owned("token metadata unreadable"));
    }
    let quote_token: String;
    let amount_in: Option<Dec>;
    match &d.quote_token {
        Some(q) => {
            if eq_ignore_ascii_case(q.address.as_str(), NATIVE) {
                quote_token = owned("native");
                amount_in = Some(Dec(U256::from_u128(BUY_SIZE_NATIVE)));
            } else {
                quote_token = owned(q.address.as_str());
                amount_in = None;
            }
        },
        None => {
            quote_token = owned("unresolved");
            amount_in = None;
        },
    }
    Event::TradeIntent(
        Box::new(
            TradeIntent {
                chain: owned(d.chain.as_str()),
                token: owned(d.token.address.as_str()),
                symbol: clone_opt(&d.token.symbol),
                source: owned(d.protocol.as_str()),
                kind: d.kind,
                venue,
                target,
                quote_token,
                amount_in,
                max_slippage_bps: MAX_SLIPPAGE_BPS,
                dry_run: true,
            },
        ),
    )
}

/// Whatever the executor answers — an intent or a skip — carries the
/// detection's `trace_id`, so downstream stages join it to the token.
pub proof fn lemma_answer_joins_detection(e: Event, d: Detection)
    requires
        answers(e, d),
    ensures
        trace_text(e) == trace_text(Event::Detection(Box::new(d))),
{
}

/// The executor only ever proposes dry runs, never on a detection that a
/// gate rejects, and never larger than the native buy size.
pub proof fn lemma_intent_only_when_gates_pass(e: Event, d: Detection)
    requires
        answers(e, d),
        e is TradeIntent,
    ensures
        route(d) is Some,
        !(dev_pct(d) matches Some(p) && p > MAX_DEV_BUY_BPS),
        d.token.symbol is Some,
        e->TradeIntent_0.dry_run,
        e->TradeIntent_0.amount_in matches Some(a) ==> a.value() == BUY_SIZE_NATIVE,
{
}

/// The three gates are the only reasons to pass: with a contract to route
/// through (a curve address for a bonding curve, a pool address for a pool),
/// a dev share that is unknown or at most [`MAX_DEV_BUY_BPS`], and a known
/// symbol, the answer is a dry-run intent for the detection's token.
pub proof fn lemma_intent_when_gates_pass(e: Event, d: Detection)
    requires
        answers(e, d),
        match d.market {
            MarketKind::BondingCurve => d.curve is Some,
            MarketKind::Pool => d.pool matches Some(p) && p.address is Some,
        },
        match d.dev_buy {
            Some(b) => match b.pct_bps {
                Some(p) => p <= MAX_DEV_BUY_BPS,
                None => true,
            },
            None => true,
        },
        d.token.symbol is Some,
    ensures
        e matches Event::TradeIntent(i) && i.dry_run && i.token@ == d.token.address@,
{
}

} // verus!
