use web3sniper::bus::num::Dec;
use web3sniper::bus::{Envelope, Level, SCHEMA};
use web3sniper::config::watchlist::TargetKind;
use web3sniper::events::detection::{Detection, Economics, MarketKind, TokenInfo};
use web3sniper::events::{Event, TradeIntent};

pub fn detection(chain: &str, token: &str) -> Detection {
    Detection {
        chain: chain.to_string(),
        protocol: "PonsFamily V2".to_string(),
        kind: TargetKind::Launch,
        event: "Launched",
        token: TokenInfo {
            address: token.to_string(),
            name: Some("snob".to_string()),
            symbol: Some("SNOB".to_string()),
            decimals: Some(18),
            total_supply: None,
        },
        creator: String::new(),
        launcher: None,
        dev_buy: None,
        quote_token: None,
        economics: Economics::default(),
        market: MarketKind::BondingCurve,
        curve: None,
        pool: None,
        valuation: None,
        tx_hash: "0xf585".to_string(),
        block_number: 52837125,
        log_index: 74,
        block_timestamp: None,
        observed_at: "t".to_string(),
    }
}

#[test]
fn topics_follow_the_routing_scheme() {
    assert_eq!(Event::Started { chains: vec![] }.topic(), "app.started");
    assert_eq!(Event::ChainConnected { chain: "rh".into() }.topic(), "listener.rh.connected");
    assert_eq!(
        Event::ChainDown { chain: "rh".into(), reason: "x".into() }.topic(),
        "listener.rh.down"
    );
    let watching = Event::Watching {
        chain: "rh".into(),
        source: "s".into(),
        kind: TargetKind::Graduation,
        address: "0x1".into(),
        signature: "E()".into(),
    };
    assert_eq!(watching.topic(), "listener.rh.graduation.watching");
    assert_eq!(
        Event::Resubscribed { chain: "rh".into(), source: "s".into(), attempt: 2 }.topic(),
        "listener.rh.resubscribed"
    );
    assert_eq!(
        Event::Alive { chain: "rh".into(), last_log_age_secs: None }.topic(),
        "listener.rh.alive"
    );
    assert_eq!(
        Event::Undecoded { chain: "rh".into(), source: "s".into(), topic0: None }.topic(),
        "listener.rh.undecoded"
    );
    assert_eq!(
        Event::WatchStopped { chain: "rh".into(), source: "s".into(), reason: "r".into() }.topic(),
        "listener.rh.watch_stopped"
    );
    let d = detection("rh", "0xAbC");
    assert_eq!(Event::Detection(Box::new(d)).topic(), "listener.rh.launch.Launched");
    let skipped = Event::TradeSkipped {
        chain: "rh".into(),
        token: "0xAbC".into(),
        source: "s".into(),
        kind: TargetKind::Launch,
        reason: "r".into(),
    };
    assert_eq!(skipped.topic(), "executor.rh.launch.skip");
    assert_eq!(skipped.subsystem(), "executor");
    assert_eq!(Event::Started { chains: vec![] }.subsystem(), "app");
    assert_eq!(watching.subsystem(), "listener");
}

#[test]
fn levels() {
    assert_eq!(
        Event::Undecoded { chain: "rh".into(), source: "s".into(), topic0: None }.level(),
        Level::Warn
    );
    assert_eq!(Event::ChainDown { chain: "rh".into(), reason: "x".into() }.level(), Level::Error);
    assert_eq!(
        Event::WatchStopped { chain: "rh".into(), source: "s".into(), reason: "r".into() }.level(),
        Level::Error
    );
    assert_eq!(Event::ChainConnected { chain: "rh".into() }.level(), Level::Info);
}

#[test]
fn trace_and_event_ids() {
    let e = Event::Detection(Box::new(detection("rh", "0xF9E339AbC")));
    assert_eq!(e.trace_id().as_deref(), Some("rh:0xf9e339abc"));
    assert_eq!(e.event_id().as_deref(), Some("rh:0xf585:74"));
    let intent = Event::TradeIntent(Box::new(TradeIntent {
        chain: "rh".into(),
        token: "0xF9E339AbC".into(),
        symbol: None,
        source: "s".into(),
        kind: TargetKind::Launch,
        venue: "bonding_curve".into(),
        target: "0x1".into(),
        quote_token: "native".into(),
        amount_in: Some(Dec::from(web3sniper::primitives::U256::from_u128(5))),
        max_slippage_bps: 1500,
        dry_run: true,
    }));
    assert_eq!(intent.topic(), "executor.rh.launch.intent");
    assert_eq!(intent.trace_id().as_deref(), Some("rh:0xf9e339abc"));
    assert_eq!(intent.event_id(), None);
    assert_eq!(Event::ChainConnected { chain: "rh".into() }.trace_id(), None);
}

#[test]
fn trace_ids_are_chain_scoped() {
    let a = Event::Detection(Box::new(detection("rh", "0xabc"))).trace_id();
    let b = Event::Detection(Box::new(detection("base", "0xabc"))).trace_id();
    assert_ne!(a, b);
}

#[test]
fn envelope_routing_comes_from_the_payload() {
    let env = Envelope::wrap(
        Event::Detection(Box::new(detection("rh", "0xABC"))),
        Some("rh:0x1:2".to_string()),
        "2026-09-02T21:55:57.462+02:00".to_string(),
    );
    assert_eq!(env.schema, SCHEMA);
    assert_eq!(env.schema, 1);
    assert_eq!(env.subsystem, "listener");
    assert_eq!(env.topic, "listener.rh.launch.Launched");
    assert_eq!(env.level, Level::Info);
    assert_eq!(env.trace_id.as_deref(), Some("rh:0xabc"));
    assert_eq!(env.event_id.as_deref(), Some("rh:0xf585:74"));
    assert_eq!(env.caused_by.as_deref(), Some("rh:0x1:2"));
    assert_eq!(env.ts, "2026-09-02T21:55:57.462+02:00");
    assert!(env.topic.starts_with(&format!("{}.", env.subsystem)));
}

#[test]
fn event_ids_tell_logs_apart() {
    let mut a = detection("rh", "0xabc");
    let mut b = detection("rh", "0xabc");
    a.log_index = 7;
    b.log_index = 74;
    let ida = Event::Detection(Box::new(a.clone())).event_id();
    let idb = Event::Detection(Box::new(b)).event_id();
    assert_ne!(ida, idb);
    let mut c = a.clone();
    c.tx_hash = "0xf586".to_string();
    assert_ne!(ida, Event::Detection(Box::new(c)).event_id());
    assert_eq!(ida, Event::Detection(Box::new(a)).event_id());
}

#[test]
fn ascii_join_keys_lowercase_letters_only() {
    let e = Event::TradeSkipped {
        chain: "rh".to_string(),
        token: "0xF9E339AbCdEf".to_string(),
        source: "PonsFamily V2".to_string(),
        kind: TargetKind::Launch,
        reason: "no pool address".to_string(),
    };
    assert_eq!(e.trace_id(), Some("rh:0xf9e339abcdef".to_string()));
}
