use web3sniper::chain::contracts::pool_graduated_topic;
use web3sniper::chain::log::LogRecord;
use web3sniper::config::watchlist::{Target, TargetKind};
use web3sniper::events::Event;
use web3sniper::primitives::{Address, B256};
use web3sniper::stages::listener_sub::{
    alive, classify_log, subscribe_failed, target_address, Backoff,
    WatchStep, BACKOFF_MAX_SECS,
};

fn target(address: &str) -> Target {
    Target {
        kind: TargetKind::Graduation,
        name: "PonsV2".to_string(),
        address: address.to_string(),
        event: " event PoolGraduated(address,uint256,uint256,uint256) ".to_string(),
    }
}

#[test]
fn first_subscription_announces_watching() {
    let chain = "rh".to_string();
    let t = target("0xd8da6bf26964af9d7eed9e03e53415d37aa96045");
    let a = target_address(&chain, &t).unwrap();
    match Backoff::new().announce(&chain, &t, &a) {
        Event::Watching { chain, source, kind, address, signature } => {
            assert_eq!(chain, "rh");
            assert_eq!(source, "PonsV2");
            assert_eq!(kind, TargetKind::Graduation);
            assert_eq!(address, "0xd8dA6BF26964aF9D7eEd9e03E53415D37aA96045");
            assert_eq!(signature, "PoolGraduated(address,uint256,uint256,uint256)");
        }
        other => panic!("unexpected {other:?}"),
    }
    let b = Backoff { attempt: 3, delay_secs: 8 };
    match b.announce(&chain, &t, &a) {
        Event::Resubscribed { attempt, .. } => assert_eq!(attempt, 3),
        other => panic!("unexpected {other:?}"),
    }
}

#[test]
fn invalid_address_stops_the_watch() {
    let chain = "rh".to_string();
    match target_address(&chain, &target("0x12")) {
        Err(Event::WatchStopped { reason, source, .. }) => {
            assert_eq!(reason, "invalid address: invalid string length");
            assert_eq!(source, "PonsV2");
        }
        other => panic!("unexpected {other:?}"),
    }
    match target_address(&chain, &target("0x123")) {
        Err(Event::WatchStopped { reason, .. }) => {
            assert_eq!(reason, "invalid address: odd number of digits")
        }
        other => panic!("unexpected {other:?}"),
    }
}

#[test]
fn backoff_doubles_up_to_the_cap() {
    let mut b = Backoff::new();
    let mut sleeps = vec![];
    for _ in 0..7 {
        match b.retry() {
            WatchStep::Sleep { secs, then } => {
                sleeps.push(secs);
                b = then;
            }
            other => panic!("unexpected {other:?}"),
        }
    }
    assert_eq!(sleeps, vec![1, 2, 4, 8, 16, 30, 30]);
    assert_eq!(b.attempt, 7);
    assert_eq!(b.delay_secs, BACKOFF_MAX_SECS);
}

#[test]
fn healthy_subscription_resets_the_backoff() {
    let b = Backoff { attempt: 4, delay_secs: 16 };
    match b.after_stream_end(60_000) {
        WatchStep::Resubscribe(fresh) => {
            assert_eq!(fresh.attempt, 0);
            assert_eq!(fresh.delay_secs, 1);
        }
        other => panic!("unexpected {other:?}"),
    }
    match b.after_stream_end(59_999) {
        WatchStep::Sleep { secs, then } => {
            assert_eq!(secs, 16);
            assert_eq!(then.attempt, 5);
            assert_eq!(then.delay_secs, 30);
        }
        other => panic!("unexpected {other:?}"),
    }
}

#[test]
fn stop_reasons() {
    let chain = "rh".to_string();
    let t = target("0x0");
    match subscribe_failed(&chain, &t, "connection refused") {
        Event::WatchStopped { reason, .. } => assert_eq!(reason, "subscribe failed: connection refused"),
        other => panic!("unexpected {other:?}"),
    }
    // a dropped stream is resubscribed, not reported as stopped
    let b = Backoff { attempt: 2, delay_secs: 4 };
    match b.on_stream_end(1_000) {
        (WatchStep::Sleep { secs, then }, None) => {
            assert_eq!(secs, 4);
            assert_eq!(then.attempt, 3);
        }
        other => panic!("unexpected {other:?}"),
    }
    match b.on_stream_end(60_000) {
        (WatchStep::Resubscribe(fresh), None) => assert_eq!(fresh.attempt, 0),
        other => panic!("unexpected {other:?}"),
    }
    match b.on_subscribe_error(&chain, &t, "connection refused") {
        (WatchStep::Sleep { secs, .. }, Some(Event::WatchStopped { reason, .. })) => {
            assert_eq!(secs, 4);
            assert_eq!(reason, "subscribe failed: connection refused");
        }
        other => panic!("unexpected {other:?}"),
    }
}

#[test]
fn undecodable_log_is_reported_with_its_topic() {
    let chain = "rh".to_string();
    let t = target("0x0");
    let bad = LogRecord {
        topics: vec![B256 { bytes: [0xab; 32] }],
        data: vec![],
        block_number: None,
        transaction_hash: None,
        log_index: None,
    };
    match classify_log(&chain, &t, &bad) {
        Err(Event::Undecoded { topic0, source, .. }) => {
            assert_eq!(topic0, Some(format!("0x{}", "ab".repeat(32))));
            assert_eq!(source, "PonsV2");
        }
        other => panic!("unexpected {other:?}"),
    }
    let empty = LogRecord { topics: vec![], ..bad.clone() };
    match classify_log(&chain, &t, &empty) {
        Err(Event::Undecoded { topic0, .. }) => assert_eq!(topic0, None),
        other => panic!("unexpected {other:?}"),
    }
    let mut data = vec![0u8; 96];
    data[31] = 1;
    let good = LogRecord {
        topics: vec![pool_graduated_topic(), B256 { bytes: [0x01; 32] }],
        data,
        ..bad
    };
    assert!(classify_log(&chain, &t, &good).is_ok());
    let _ = Address { bytes: [0; 20] };
}

#[test]
fn heartbeat_age() {
    let chain = "rh".to_string();
    match alive(&chain, 0, 100) {
        Event::Alive { last_log_age_secs, .. } => assert_eq!(last_log_age_secs, None),
        other => panic!("unexpected {other:?}"),
    }
    match alive(&chain, 90, 100) {
        Event::Alive { last_log_age_secs, .. } => assert_eq!(last_log_age_secs, Some(10)),
        other => panic!("unexpected {other:?}"),
    }
    match alive(&chain, 110, 100) {
        Event::Alive { last_log_age_secs, .. } => assert_eq!(last_log_age_secs, Some(0)),
        other => panic!("unexpected {other:?}"),
    }
}
