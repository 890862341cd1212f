use web3sniper::config::watchlist::TargetKind;
use web3sniper::events::detection::{
    CurveState, Detection, DevBuy, Economics, MarketKind, PoolState, TokenInfo, TokenRef,
};
use web3sniper::events::Event;
use web3sniper::stages::executor::{evaluate, BUY_SIZE_NATIVE, MAX_SLIPPAGE_BPS};

fn base() -> Detection {
    Detection {
        chain: "rh".to_string(),
        protocol: "PonsFamily V2".to_string(),
        kind: TargetKind::Launch,
        event: "Launched",
        token: TokenInfo {
            address: "0xToken".to_string(),
            name: Some("snob".to_string()),
            symbol: Some("SNOB".to_string()),
            decimals: Some(18),
            total_supply: None,
        },
        creator: String::new(),
        launcher: None,
        dev_buy: Some(DevBuy { tokens: None, quote: None, pct_bps: Some(100) }),
        quote_token: Some(TokenRef {
            address: "0x0000000000000000000000000000000000000000".to_string(),
            symbol: None,
            decimals: None,
        }),
        economics: Economics::default(),
        market: MarketKind::BondingCurve,
        curve: Some(CurveState {
            address: "0xCurve".to_string(),
            real_quote_reserve: None,
            token_reserve: None,
            progress_bps: None,
            price_native: None,
        }),
        pool: None,
        valuation: None,
        tx_hash: "0x".to_string(),
        block_number: 1,
        log_index: 0,
        block_timestamp: None,
        observed_at: "t".to_string(),
    }
}

fn reason(e: &Event) -> String {
    match e {
        Event::TradeSkipped { reason, .. } => reason.clone(),
        other => panic!("expected a skip, got {other:?}"),
    }
}

#[test]
fn native_quote_gets_a_sized_dry_run() {
    let d = base();
    match evaluate(&d) {
        Event::TradeIntent(i) => {
            assert_eq!(i.venue, "bonding_curve");
            assert_eq!(i.target, "0xCurve");
            assert_eq!(i.quote_token, "native");
            assert_eq!(i.amount_in.unwrap().to_string(), BUY_SIZE_NATIVE.to_string());
            assert_eq!(i.amount_in.unwrap().to_string(), "50000000000000000");
            assert_eq!(i.max_slippage_bps, MAX_SLIPPAGE_BPS);
            assert!(i.dry_run);
            assert_eq!(i.symbol.as_deref(), Some("SNOB"));
        }
        other => panic!("unexpected {other:?}"),
    }
}

#[test]
fn erc20_quote_is_not_sized() {
    let mut d = base();
    d.quote_token.as_mut().unwrap().address = "0xUsdG".to_string();
    match evaluate(&d) {
        Event::TradeIntent(i) => {
            assert_eq!(i.quote_token, "0xUsdG");
            assert!(i.amount_in.is_none());
        }
        other => panic!("unexpected {other:?}"),
    }
    d.quote_token = None;
    match evaluate(&d) {
        Event::TradeIntent(i) => assert_eq!(i.quote_token, "unresolved"),
        other => panic!("unexpected {other:?}"),
    }
}

#[test]
fn pool_venue_and_defaults() {
    let mut d = base();
    d.market = MarketKind::Pool;
    d.curve = None;
    d.pool = Some(PoolState {
        venue: None,
        address: Some("0xPool".to_string()),
        position_id: None,
        router: None,
        reserve_token: None,
        reserve_quote: None,
        price_native: None,
    });
    match evaluate(&d) {
        Event::TradeIntent(i) => {
            assert_eq!(i.venue, "pool");
            assert_eq!(i.target, "0xPool");
        }
        other => panic!("unexpected {other:?}"),
    }
    d.pool.as_mut().unwrap().venue = Some("uniswap-v4".to_string());
    match evaluate(&d) {
        Event::TradeIntent(i) => assert_eq!(i.venue, "uniswap-v4"),
        other => panic!("unexpected {other:?}"),
    }
}

#[test]
fn skip_reasons() {
    let mut d = base();
    d.curve = None;
    assert_eq!(reason(&evaluate(&d)), "no curve address");

    let mut d = base();
    d.market = MarketKind::Pool;
    assert_eq!(reason(&evaluate(&d)), "no pool address");

    let mut d = base();
    d.dev_buy = Some(DevBuy { tokens: None, quote: None, pct_bps: Some(4000) });
    let e = evaluate(&d);
    assert_eq!(reason(&e), "dev holds 40%");
    assert_eq!(e.trace_id().as_deref(), Some("rh:0xtoken"));

    let mut d = base();
    d.dev_buy = Some(DevBuy { tokens: None, quote: None, pct_bps: Some(2500) });
    assert!(matches!(evaluate(&d), Event::TradeIntent(_)));

    let mut d = base();
    d.token.symbol = None;
    assert_eq!(reason(&evaluate(&d)), "token metadata unreadable");
}

#[test]
fn dev_share_renders_like_float_formatting() {
    for pct in (2501u32..=20000).chain([u32::MAX, u32::MAX - 50, 2550, 2650, 9950]) {
        let mut d = base();
        d.dev_buy = Some(DevBuy { tokens: None, quote: None, pct_bps: Some(pct) });
        let expected = format!("dev holds {:.0}%", pct as f64 / 100.0);
        assert_eq!(reason(&evaluate(&d)), expected, "pct {pct}");
    }
}

#[test]
fn answers_share_the_detection_trace_id() {
    let d = base();
    let t = Event::Detection(Box::new(base())).trace_id();
    assert_eq!(evaluate(&d).trace_id(), t);
    let mut d = base();
    d.token.symbol = None;
    assert_eq!(evaluate(&d).trace_id(), t);
}
