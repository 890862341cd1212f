use web3sniper::chain::contracts::{launched_topic, token_launched_topic};
use web3sniper::chain::log::LogRecord;
use web3sniper::config::watchlist::TargetKind;
use web3sniper::consumer::logger::{level_tag, summary};
use web3sniper::contracts::{decode, DecodedEvent, TokenMetadata};
use web3sniper::event::listener::{Detection as ListenerDetection, Event as RootEvent, ListenerEvent};
use web3sniper::event::{Detection, Event, Level};
use web3sniper::logger::message;
use web3sniper::primitives::B256;

fn word_addr(fill: u8) -> [u8; 32] {
    let mut w = [0u8; 32];
    for b in &mut w[12..] {
        *b = fill;
    }
    w
}

fn word_u64(v: u64) -> [u8; 32] {
    let mut w = [0u8; 32];
    w[24..].copy_from_slice(&v.to_be_bytes());
    w
}

fn log(topics: Vec<[u8; 32]>, words: Vec<[u8; 32]>) -> LogRecord {
    LogRecord {
        topics: topics.into_iter().map(|bytes| B256 { bytes }).collect(),
        data: words.concat(),
        block_number: Some(7),
        transaction_hash: None,
        log_index: None,
    }
}

fn detection(metadata: Option<TokenMetadata>, block: Option<u64>) -> Detection {
    Detection {
        chain: "rh".to_string(),
        kind: TargetKind::Launch,
        source: "PonsFamily".to_string(),
        event: "TokenLaunched",
        token: "0x4444444444444444444444444444444444445555".to_string(),
        block_number: block,
        tx_hash: None,
        metadata,
        payload: serde_json::Value::Null,
    }
}

#[test]
fn decodes_launched_with_positional_fields() {
    let l = log(
        vec![launched_topic().bytes, word_addr(1), word_addr(2), word_addr(3)],
        vec![word_addr(4), word_u64(5), word_u64(6)],
    );
    match decode(&l) {
        Some(DecodedEvent::Launched(e)) => {
            assert_eq!(e.token.bytes, [1; 20]);
            assert_eq!(e.pool.bytes, [2; 20]);
            assert_eq!(e.deployer.bytes, [3; 20]);
            assert_eq!(e.quoteToken.bytes, [4; 20]);
            assert_eq!(e.arg4.to_decimal_string(), "5");
            assert_eq!(e.arg5.to_decimal_string(), "6");
        }
        other => panic!("unexpected {other:?}"),
    }
    let d = decode(&l).unwrap();
    assert_eq!(d.name(), "Launched");
    assert_eq!(d.token().bytes, [1; 20]);
}

#[test]
fn decodes_token_launched_with_positional_fields() {
    let l = log(
        vec![token_launched_topic().bytes, word_addr(1), word_addr(2), word_addr(3)],
        vec![
            word_addr(4),
            word_addr(5),
            word_u64(6),
            word_u64(7),
            word_u64(8),
            word_u64(9),
            word_u64(10),
        ],
    );
    match decode(&l) {
        Some(DecodedEvent::TokenLaunched(e)) => {
            assert_eq!(e.quoteToken.bytes, [4; 20]);
            assert_eq!(e.arg4.bytes, [5; 20]);
            assert_eq!(e.arg5.to_decimal_string(), "6");
            assert_eq!(e.arg9.to_decimal_string(), "10");
        }
        other => panic!("unexpected {other:?}"),
    }
    assert_eq!(decode(&l).unwrap().name(), "TokenLaunched");
}

#[test]
fn short_or_unknown_logs_do_not_decode() {
    // one data word short
    let l = log(
        vec![launched_topic().bytes, word_addr(1), word_addr(2), word_addr(3)],
        vec![word_addr(4), word_u64(5)],
    );
    assert!(decode(&l).is_none());
    // missing indexed topic
    let l = log(
        vec![launched_topic().bytes, word_addr(1), word_addr(2)],
        vec![word_addr(4), word_u64(5), word_u64(6)],
    );
    assert!(decode(&l).is_none());
    let l = log(vec![[9u8; 32]], vec![]);
    assert!(decode(&l).is_none());
    let l = log(vec![], vec![]);
    assert!(decode(&l).is_none());
}

#[test]
fn metadata_label() {
    let m = TokenMetadata {
        name: Some("snob".to_string()),
        symbol: Some("SNOB".to_string()),
        decimals: Some(18),
    };
    assert_eq!(m.label(), "SNOB (snob)");
    let m = TokenMetadata { name: None, symbol: Some("X".to_string()), decimals: None };
    assert_eq!(m.label(), "X (?)");
    let m = TokenMetadata { name: None, symbol: None, decimals: None };
    assert_eq!(m.label(), "? (?)");
}

#[test]
fn chain_stream_topics_and_levels() {
    assert_eq!(Event::Started { chains: vec![] }.topic(), "app.started");
    assert_eq!(Event::ChainConnected { chain: "rh".into() }.topic(), "chains.rh.connected");
    let down = Event::ChainDown { chain: "rh".into(), reason: "x".into() };
    assert_eq!(down.topic(), "chains.rh.down");
    assert_eq!(down.level(), Level::Error);
    let w = Event::Watching {
        chain: "rh".into(),
        source: "s".into(),
        kind: TargetKind::Launch,
        address: "0x1".into(),
        signature: "E()".into(),
    };
    assert_eq!(w.topic(), "chains.rh.launch.watching");
    assert_eq!(w.level(), Level::Info);
    let u = Event::Undecoded { chain: "rh".into(), source: "s".into(), topic0: None };
    assert_eq!(u.topic(), "chains.rh.undecoded");
    assert_eq!(u.level(), Level::Warn);
    let s = Event::WatchStopped { chain: "rh".into(), source: "s".into(), reason: "r".into() };
    assert_eq!(s.topic(), "chains.rh.watch_stopped");
    assert_eq!(s.level(), Level::Error);
    let d = Event::Detection(detection(None, None));
    assert_eq!(d.topic(), "chains.rh.launch.TokenLaunched");
    assert_eq!(d.level(), Level::Info);
}

#[test]
fn chain_stream_lines() {
    assert_eq!(level_tag(Level::Warn, false), "WARN ");
    assert_eq!(level_tag(Level::Info, true), "\x1b[32mINFO \x1b[0m");
    assert_eq!(web3sniper::consumer::logger::line("t", "INFO ", "a.b", "s", false), "t INFO  a.b s");
    let e = Event::Detection(detection(
        Some(TokenMetadata {
            name: Some("snob".to_string()),
            symbol: Some("SNOB".to_string()),
            decimals: None,
        }),
        Some(99),
    ));
    assert_eq!(summary(&e, false), "PonsFamily SNOB (snob)  token 0x4444…5555  block 99");
    let e = Event::Detection(detection(None, None));
    assert_eq!(summary(&e, false), "PonsFamily ?  token 0x4444…5555");
    let e = Event::Started { chains: vec!["a".into(), "b".into(), "c".into()] };
    assert_eq!(summary(&e, false), "watching a, b, c");
    let e = Event::Undecoded { chain: "rh".into(), source: "s".into(), topic0: Some("0x12".into()) };
    assert_eq!(summary(&e, false), "s: log did not match ABI (topic0 0x12)");
}

#[test]
fn listener_messages() {
    let ev = |l: ListenerEvent| RootEvent::Listener(l);
    assert_eq!(
        message(&ev(ListenerEvent::Ready)).as_deref(),
        Some("[INFO] Watchlist loaded, listener is ready.")
    );
    assert_eq!(
        message(&ev(ListenerEvent::ChainUp { chain: "rh".into() })).as_deref(),
        Some("[INFO] Chain started listening: rh")
    );
    assert_eq!(
        message(&ev(ListenerEvent::ChainDown { chain: "rh".into(), err: "boom".into() }))
            .as_deref(),
        Some("[ERROR] Chain failed: rh - boom")
    );
    assert_eq!(
        message(&ev(ListenerEvent::ListeningLaunches { chain: "rh".into() })).as_deref(),
        Some("[INFO] Listening to launches on chain: rh")
    );
    assert_eq!(
        message(&ev(ListenerEvent::ListeningGraduations { chain: "rh".into() })).as_deref(),
        Some("[INFO] Listening to graduations on chain: rh")
    );
    let d = ListenerDetection {
        chain: "rh".into(),
        tx_hash: "0x".into(),
        block_number: 1,
        address: "0xa".into(),
        deployer: "0xb".into(),
        method_id: "0xc".into(),
    };
    assert_eq!(message(&ev(ListenerEvent::Launch(d.clone()))), None);
    assert_eq!(message(&ev(ListenerEvent::Graduation(d))), None);
    match ev(ListenerEvent::Ready).as_listener() {
        Some(ListenerEvent::Ready) => {}
        other => panic!("unexpected {other:?}"),
    }
}
