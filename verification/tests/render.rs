use web3sniper::bus::num::Dec;
use web3sniper::bus::Level;
use web3sniper::config::watchlist::TargetKind;
use web3sniper::consumer::style::{
    bold, bold_cyan, cyan, dim, green, paint, red, short_hex, short_hex_cuts, yellow,
};
use web3sniper::events::detection::{Detection, Economics, MarketKind, TokenInfo};
use web3sniper::events::{Event, TradeIntent};
use web3sniper::primitives::U256;
use web3sniper::stages::logger::{
    debug_enabled, human_line, lag_summary, level_tag, summary, summary_renders, LAG_TOPIC,
};

#[test]
fn paint_wraps_in_escape_codes_when_on() {
    assert_eq!(paint("31", "x", true), "\x1b[31mx\x1b[0m");
    assert_eq!(paint("31", "x", false), "x");
    assert_eq!(dim("a", true), "\x1b[2ma\x1b[0m");
    assert_eq!(bold("a", true), "\x1b[1ma\x1b[0m");
    assert_eq!(red("a", true), "\x1b[31ma\x1b[0m");
    assert_eq!(green("a", true), "\x1b[32ma\x1b[0m");
    assert_eq!(yellow("a", true), "\x1b[33ma\x1b[0m");
    assert_eq!(cyan("a", true), "\x1b[36ma\x1b[0m");
    assert_eq!(bold_cyan("a", true), "\x1b[1;36ma\x1b[0m");
    assert_eq!(bold_cyan("a", false), "a");
}

#[test]
fn short_hex_trims_long_hex() {
    assert_eq!(
        short_hex("0x1234567890abcdef1234567890abcdef12345678"),
        "0x1234…5678"
    );
    // exactly twelve body bytes: unchanged
    assert_eq!(short_hex("0x1234567890ab"), "0x1234567890ab");
    // thirteen: shortened
    assert_eq!(short_hex("0x1234567890abc"), "0x1234…0abc");
    assert_eq!(short_hex("none"), "none");
    assert_eq!(short_hex("1234567890abcdef1234"), "1234567890abcdef1234");
    assert_eq!(short_hex(""), "");
}

#[test]
fn debug_flag_values() {
    assert!(debug_enabled("1"));
    assert!(debug_enabled("true"));
    assert!(debug_enabled(" TRUE "));
    assert!(debug_enabled("Yes\n"));
    assert!(!debug_enabled(""));
    assert!(!debug_enabled("0"));
    assert!(!debug_enabled("false"));
    assert!(!debug_enabled("y"));
    assert!(!debug_enabled("true1"));
}

#[test]
fn level_tags_are_fixed_width() {
    assert_eq!(level_tag(Level::Info, false), "INFO ");
    assert_eq!(level_tag(Level::Warn, false), "WARN ");
    assert_eq!(level_tag(Level::Error, false), "ERROR");
    assert_eq!(level_tag(Level::Error, true), "\x1b[31mERROR\x1b[0m");
}

#[test]
fn human_line_layout() {
    assert_eq!(
        human_line("12:00:00.000", "INFO ", "app.started", "watching rh", false),
        "12:00:00.000 INFO  app.started watching rh"
    );
    assert_eq!(
        human_line("t", "T", "x.y", "s", true),
        "\x1b[2mt\x1b[0m T \x1b[1;36mx.y\x1b[0m s"
    );
}

#[test]
fn lag_warning_text() {
    assert_eq!(LAG_TOPIC, "bus.logger.lagged");
    assert_eq!(lag_summary(17), "fell behind, dropped 17 events");
    assert_eq!(lag_summary(0), "fell behind, dropped 0 events");
}

#[test]
fn summaries_of_listener_events() {
    let e = Event::Started { chains: vec!["rh".to_string(), "base".to_string()] };
    assert_eq!(summary(&e, false), "watching rh, base");
    let e = Event::ChainConnected { chain: "rh".to_string() };
    assert_eq!(summary(&e, false), "rh: RPC connected");
    let e = Event::ChainDown { chain: "rh".to_string(), reason: "timeout".to_string() };
    assert_eq!(summary(&e, false), "rh: timeout");
    let e = Event::Watching {
        chain: "rh".to_string(),
        source: "PonsFamily V2".to_string(),
        kind: TargetKind::Launch,
        address: "0xAbCdEf0123456789aBcDeF0123456789AbCdEf01".to_string(),
        signature: "Launched(address)".to_string(),
    };
    assert_eq!(summary(&e, false), "0xAbCd…Ef01 Launched(address)");
    assert_eq!(summary(&e, true), "\x1b[2m0xAbCd…Ef01\x1b[0m Launched(address)");
    let e = Event::Resubscribed { chain: "rh".to_string(), source: "P".to_string(), attempt: 3 };
    assert_eq!(summary(&e, false), "P: back after 3 attempt(s)");
    let e = Event::Alive { chain: "rh".to_string(), last_log_age_secs: Some(42) };
    assert_eq!(summary(&e, false), "last log 42s ago");
    let e = Event::Alive { chain: "rh".to_string(), last_log_age_secs: None };
    assert_eq!(summary(&e, false), "no log yet");
    let e = Event::Undecoded { chain: "rh".to_string(), source: "P".to_string(), topic0: None };
    assert_eq!(summary(&e, false), "P: log did not match ABI (topic0 none)");
    let e = Event::Undecoded {
        chain: "rh".to_string(),
        source: "P".to_string(),
        topic0: Some(format!("0x{}", "ab".repeat(32))),
    };
    assert_eq!(summary(&e, false), "P: log did not match ABI (topic0 0xabab…abab)");
    let e = Event::WatchStopped {
        chain: "rh".to_string(),
        source: "P".to_string(),
        reason: "stream ended".to_string(),
    };
    assert_eq!(summary(&e, false), "P: stream ended");
}

#[test]
fn summary_of_trade_events() {
    let i = TradeIntent {
        chain: "rh".to_string(),
        token: "0xT".to_string(),
        symbol: Some("SNOB".to_string()),
        source: "P".to_string(),
        kind: TargetKind::Launch,
        venue: "bonding_curve".to_string(),
        target: "0x1111111111111111111111111111111111111111".to_string(),
        quote_token: "native".to_string(),
        amount_in: Some(Dec::from(U256::from_u128(10_000_000_000_000_000))),
        max_slippage_bps: 1500,
        dry_run: true,
    };
    let e = Event::TradeIntent(Box::new(i.clone()));
    assert_eq!(
        summary(&e, false),
        "SNOB buy 10000000000000000 native on bonding_curve 0x1111…1111 [dry-run]"
    );
    let mut j = i;
    j.symbol = None;
    j.amount_in = None;
    j.quote_token = "unresolved".to_string();
    let e = Event::TradeIntent(Box::new(j));
    assert_eq!(
        summary(&e, false),
        "? buy ? unresolved on bonding_curve 0x1111…1111 [dry-run]"
    );
    let e = Event::TradeSkipped {
        chain: "rh".to_string(),
        token: "0xT".to_string(),
        source: "P".to_string(),
        kind: TargetKind::Launch,
        reason: "no venue".to_string(),
    };
    assert_eq!(summary(&e, false), "P: no venue");
}

#[test]
fn summary_of_a_detection() {
    let d = Detection {
        chain: "rh".to_string(),
        protocol: "PonsFamily V2".to_string(),
        kind: TargetKind::Launch,
        event: "Launched",
        token: TokenInfo {
            address: "0x2222222222222222222222222222222222223333".to_string(),
            name: Some("snob".to_string()),
            symbol: Some("SNOB".to_string()),
            decimals: Some(18),
            total_supply: None,
        },
        creator: String::new(),
        launcher: None,
        dev_buy: None,
        quote_token: None,
        economics: Economics::default(),
        market: MarketKind::BondingCurve,
        curve: None,
        pool: None,
        valuation: None,
        tx_hash: "0xf585".to_string(),
        block_number: 52837125,
        log_index: 74,
        block_timestamp: None,
        observed_at: "t".to_string(),
    };
    let mut bare = d.clone();
    let e = Event::Detection(Box::new(d));
    assert_eq!(
        summary(&e, false),
        "PonsFamily V2 SNOB (snob)  token 0x2222…3333  block 52837125"
    );
    assert_eq!(
        summary(&e, true),
        "\x1b[36mPonsFamily V2\x1b[0m \x1b[1mSNOB (snob)\x1b[0m  token \x1b[2m0x2222…3333\x1b[0m\x1b[2m  block 52837125\x1b[0m"
    );
    bare.token.name = None;
    bare.token.symbol = None;
    let e = Event::Detection(Box::new(bare));
    assert_eq!(
        summary(&e, false),
        "PonsFamily V2 ? (?)  token 0x2222…3333  block 52837125"
    );
}

#[test]
fn cut_checks_before_rendering() {
    assert!(short_hex_cuts("0x1234567890abcdef1234567890abcdef12345678"));
    assert!(short_hex_cuts("none"));
    assert!(short_hex_cuts("0xé"));
    // a cut inside a two-byte character
    assert!(!short_hex_cuts("0x123é4567890abc"));
    assert!(!short_hex_cuts("0x1234567890abcé123"));
    let e = Event::Undecoded { chain: "rh".into(), source: "s".into(), topic0: None };
    assert!(summary_renders(&e));
    let e = Event::Undecoded {
        chain: "rh".into(),
        source: "s".into(),
        topic0: Some("0x123é4567890abc".into()),
    };
    assert!(!summary_renders(&e));
    assert!(summary_renders(&Event::Started { chains: vec![] }));
}
