use web3sniper::chain::contracts::{
    decode, launched_topic, pool_graduated_topic, token_launched_topic, DecodedEvent,
};
use web3sniper::chain::log::LogRecord;
use web3sniper::primitives::{Address, B256};

fn word_u64(v: u64) -> [u8; 32] {
    let mut w = [0u8; 32];
    w[24..].copy_from_slice(&v.to_be_bytes());
    w
}

fn word_addr(fill: u8) -> [u8; 32] {
    let mut w = [0u8; 32];
    for b in &mut w[12..] {
        *b = fill;
    }
    w
}

fn log(topics: Vec<[u8; 32]>, words: Vec<[u8; 32]>) -> LogRecord {
    LogRecord {
        topics: topics.into_iter().map(|bytes| B256 { bytes }).collect(),
        data: words.concat(),
        block_number: Some(52837125),
        transaction_hash: Some(B256 { bytes: [0x11; 32] }),
        log_index: Some(74),
    }
}

#[test]
fn signature_hashes_are_keccak_of_signatures() {
    let expected = alloy::primitives::keccak256(b"PoolGraduated(address,uint256,uint256,uint256)");
    assert_eq!(pool_graduated_topic().bytes, expected.0);
    let expected = alloy::primitives::keccak256(
        b"Launched(address,address,address,address,uint256,uint256)",
    );
    assert_eq!(launched_topic().bytes, expected.0);
    let expected = alloy::primitives::keccak256(
        b"TokenLaunched(address,address,address,address,address,uint256,uint256,uint256,uint256,uint256)",
    );
    assert_eq!(token_launched_topic().bytes, expected.0);
}

#[test]
fn decodes_pool_graduated() {
    let l = log(
        vec![pool_graduated_topic().bytes, word_addr(0xaa)],
        vec![word_u64(7), word_u64(1000), word_u64(25)],
    );
    match decode(&l) {
        Some(DecodedEvent::PoolGraduated(e)) => {
            assert_eq!(e.token.bytes, [0xaa; 20]);
            assert_eq!(e.positionId.to_decimal_string(), "7");
            assert_eq!(e.tokenAmount.to_decimal_string(), "1000");
            assert_eq!(e.pairTokenAmount.to_decimal_string(), "25");
        }
        other => panic!("unexpected {other:?}"),
    }
    assert_eq!(decode(&l).unwrap().name(), "PoolGraduated");
}

#[test]
fn decodes_launched() {
    let l = log(
        vec![launched_topic().bytes, word_addr(1), word_addr(2), word_addr(3)],
        vec![word_addr(4), word_u64(500), word_u64(9000)],
    );
    match decode(&l) {
        Some(DecodedEvent::Launched(e)) => {
            assert_eq!(e.token.bytes, [1; 20]);
            assert_eq!(e.curve.bytes, [2; 20]);
            assert_eq!(e.recipient.bytes, [3; 20]);
            assert_eq!(e.launcher.bytes, [4; 20]);
            assert_eq!(e.quoteSpent.to_decimal_string(), "500");
            assert_eq!(e.tokensReceived.to_decimal_string(), "9000");
        }
        other => panic!("unexpected {other:?}"),
    }
    assert!(decode(&l).unwrap().token().same(&Address { bytes: [1; 20] }));
}

#[test]
fn decodes_token_launched() {
    let l = log(
        vec![token_launched_topic().bytes, word_addr(1), word_addr(2), word_addr(3)],
        vec![
            word_addr(4),
            word_addr(5),
            word_u64(6),
            word_u64(7),
            word_u64(8),
            word_u64(9),
            word_u64(10),
        ],
    );
    match decode(&l) {
        Some(DecodedEvent::TokenLaunched(e)) => {
            assert_eq!(e.deployer.bytes, [2; 20]);
            assert_eq!(e.dexFactory.bytes, [3; 20]);
            assert_eq!(e.pairToken.bytes, [4; 20]);
            assert_eq!(e.pool.bytes, [5; 20]);
            assert_eq!(e.dexId.to_decimal_string(), "6");
            assert_eq!(e.initialBuyAmount.to_decimal_string(), "10");
        }
        other => panic!("unexpected {other:?}"),
    }
}

#[test]
fn address_words_ignore_the_padding() {
    let mut t = word_addr(9);
    t[0] = 0xff;
    let l = log(
        vec![pool_graduated_topic().bytes, t],
        vec![word_u64(1), word_u64(2), word_u64(3)],
    );
    assert_eq!(decode(&l).unwrap().token().bytes, [9; 20]);
}

#[test]
fn trailing_data_is_allowed() {
    let l = log(
        vec![pool_graduated_topic().bytes, word_addr(1)],
        vec![word_u64(1), word_u64(2), word_u64(3), word_u64(4)],
    );
    assert!(decode(&l).is_some());
}

#[test]
fn layout_mismatch_is_not_decoded() {
    // too few data words
    let l = log(vec![pool_graduated_topic().bytes, word_addr(1)], vec![word_u64(1), word_u64(2)]);
    assert!(decode(&l).is_none());
    // wrong number of topics
    let l = log(
        vec![launched_topic().bytes, word_addr(1), word_addr(2)],
        vec![word_addr(4), word_u64(500), word_u64(9000)],
    );
    assert!(decode(&l).is_none());
    // unknown topic 0
    let l = log(vec![[0x42; 32], word_addr(1)], vec![word_u64(1), word_u64(2), word_u64(3)]);
    assert!(decode(&l).is_none());
    // no topic at all
    let l = log(vec![], vec![]);
    assert!(decode(&l).is_none());
}
