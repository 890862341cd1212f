//! The watched events: their ABI layouts and decoding a raw log into one of
//! them.
//!
//! A log is dispatched on its first topic, the Keccak-256 hash of the event
//! signature. Indexed fields live in the topics, the others in 32-byte data
//! words; addresses occupy the low 20 bytes of their word. A log whose
//! layout does not fit its signature is not decoded.

#![allow(non_snake_case)]

use vstd::prelude::*;
use crate::chain::log::LogRecord;
use crate::primitives::{keccak, keccak_digest, Address, U256};

verus! {

/// `PoolGraduated(address indexed token, uint256 positionId, uint256 tokenAmount, uint256 pairTokenAmount)`.
#[derive(Clone, Copy, Debug)]
pub struct PoolGraduated {
    pub token: Address,
    pub positionId: U256,
    pub tokenAmount: U256,
    pub pairTokenAmount: U256,
}

/// `Launched(address indexed token, address indexed curve, address indexed recipient, address launcher, uint256 quoteSpent, uint256 tokensReceived)`.
#[derive(Clone, Copy, Debug)]
pub struct Launched {
    pub token: Address,
    pub curve: Address,
    pub recipient: Address,
    pub launcher: Address,
    pub quoteSpent: U256,
    pub tokensReceived: U256,
}

/// `TokenLaunched(address indexed token, address indexed deployer, address indexed dexFactory, address pairToken, address pool, uint256 dexId, uint256 launchConfigId, uint256 positionId, uint256 restrictionsEndBlock, uint256 initialBuyAmount)`.
#[derive(Clone, Copy, Debug)]
pub struct TokenLaunched {
    pub token: Address,
    pub deployer: Address,
    pub dexFactory: Address,
    pub pairToken: Address,
    pub pool: Address,
    pub dexId: U256,
    pub launchConfigId: U256,
    pub positionId: U256,
    pub restrictionsEndBlock: U256,
    pub initialBuyAmount: U256,
}

/// A log decoded into a known event.
#[derive(Clone, Copy, Debug)]
pub enum DecodedEvent {
    PoolGraduated(PoolGraduated),
    Launched(Launched),
    TokenLaunched(TokenLaunched),
}

/// Topic 0 of `PoolGraduated`.
pub open spec fn pool_graduated_hash() -> Seq<u8> {
    keccak(vstd::utf8::encode_utf8("PoolGraduated(address,uint256,uint256,uint256)"@))
}

/// Topic 0 of `Launched`.
pub open spec fn launched_hash() -> Seq<u8> {
    keccak(vstd::utf8::encode_utf8("Launched(address,address,address,address,uint256,uint256)"@))
}

/// Topic 0 of `TokenLaunched`.
pub open spec fn token_launched_hash() -> Seq<u8> {
    keccak(
        vstd::utf8::encode_utf8(
            "TokenLaunched(address,address,address,address,address,uint256,uint256,uint256,uint256,uint256)"@,
        ),
    )
}

/// The log is dispatched to `PoolGraduated` and fits its layout
/// (token topic, three data words).
pub open spec fn is_pool_graduated_log(log: LogRecord) -> bool {
    log.topic0_is(pool_graduated_hash()) && log.has_layout(2, 3)
}

/// The log is dispatched to `Launched` and fits its layout
/// (three indexed topics, three data words).
pub open spec fn is_launched_log(log: LogRecord) -> bool {
    &&& !log.topic0_is(pool_graduated_hash())
    &&& log.topic0_is(launched_hash())
    &&& log.has_layout(4, 3)
}

/// The log is dispatched to `TokenLaunched` and fits its layout
/// (three indexed topics, seven data words).
pub open spec fn is_token_launched_log(log: LogRecord) -> bool {
    &&& !log.topic0_is(pool_graduated_hash())
    &&& !log.topic0_is(launched_hash())
    &&& log.topic0_is(token_launched_hash())
    &&& log.has_layout(4, 7)
}

/// `e` holds the fields of a `PoolGraduated` log.
pub open spec fn pool_graduated_from(e: PoolGraduated, log: LogRecord) -> bool {
    &&& e.token.bytes@ == log.topic_address(1)
    &&& e.positionId.be@ == log.word(0)
    &&& e.tokenAmount.be@ == log.word(1)
    &&& e.pairTokenAmount.be@ == log.word(2)
}

/// `e` holds the fields of a `Launched` log.
pub open spec fn launched_from(e: Launched, log: LogRecord) -> bool {
    &&& e.token.bytes@ == log.topic_address(1)
    &&& e.curve.bytes@ == log.topic_address(2)
    &&& e.recipient.bytes@ == log.topic_address(3)
    &&& e.launcher.bytes@ == log.word(0).subrange(12, 32)
    &&& e.quoteSpent.be@ == log.word(1)
    &&& e.tokensReceived.be@ == log.word(2)
}

/// `e` holds the fields of a `TokenLaunched` log.
pub open spec fn token_launched_from(e: TokenLaunched, log: LogRecord) -> bool {
    &&& e.token.bytes@ == log.topic_address(1)
    &&& e.deployer.bytes@ == log.topic_address(2)
    &&& e.dexFactory.bytes@ == log.topic_address(3)
    &&& e.pairToken.bytes@ == log.word(0).subrange(12, 32)
    &&& e.pool.bytes@ == log.word(1).subrange(12, 32)
    &&& e.dexId.be@ == log.word(2)
    &&& e.launchConfigId.be@ == log.word(3)
    &&& e.positionId.be@ == log.word(4)
    &&& e.restrictionsEndBlock.be@ == log.word(5)
    &&& e.initialBuyAmount.be@ == log.word(6)
}

/// Which watched event, if any, a log decodes to.
pub open spec fn decodes(log: LogRecord) -> bool {
    is_pool_graduated_log(log) || is_launched_log(log) || is_token_launched_log(log)
}

/// `d` is the decoding of `log`.
pub open spec fn decoded_from(d: DecodedEvent, log: LogRecord) -> bool {
    match d {
        DecodedEvent::PoolGraduated(e) => is_pool_graduated_log(log) && pool_graduated_from(e, log),
        DecodedEvent::Launched(e) => is_launched_log(log) && launched_from(e, log),
        DecodedEvent::TokenLaunched(e) => is_token_launched_log(log) && token_launched_from(e, log),
    }
}

/// Topic 0 of `PoolGraduated`, computed.
pub fn pool_graduated_topic() -> (h: crate::primitives::B256)
    ensures
        h.bytes@ == pool_graduated_hash(),
{
    keccak_digest("PoolGraduated(address,uint256,uint256,uint256)".as_bytes())
}

/// Topic 0 of `Launched`, computed.
pub fn launched_topic() -> (h: crate::primitives::B256)
    ensures
        h.bytes@ == launched_hash(),
{
    keccak_digest("Launched(address,address,address,address,uint256,uint256)".as_bytes())
}

/// Topic 0 of `TokenLaunched`, computed.
pub fn token_launched_topic() -> (h: crate::primitives::B256)
    ensures
        h.bytes@ == token_launched_hash(),
{
    keccak_digest(
        "TokenLaunched(address,address,address,address,address,uint256,uint256,uint256,uint256,uint256)".as_bytes(),
    )
}

/// Which of the three watched events a log's first topic selects, checked
/// in order `PoolGraduated`, `Launched`, `TokenLaunched`; 0 when none.
pub(crate) fn dispatch(log: &LogRecord) -> (r: u8)
    ensures
        r == 1 <==> log.topic0_is(pool_graduated_hash()),
        r == 2 <==> !log.topic0_is(pool_graduated_hash()) && log.topic0_is(launched_hash()),
        r == 3 <==> !log.topic0_is(pool_graduated_hash()) && !log.topic0_is(launched_hash())
            && log.topic0_is(token_launched_hash()),
        r == 0 <==> !log.topic0_is(pool_graduated_hash()) && !log.topic0_is(launched_hash())
            && !log.topic0_is(token_launched_hash()),
{
    let topic0 = match log.topic0() {
        Some(t) => t,
        None => return 0,
    };
    if topic0.eq(&pool_graduated_topic()) {
        1
    } else if topic0.eq(&launched_topic()) {
        2
    } else if topic0.eq(&token_launched_topic()) {
        3
    } else {
        0
    }
}

impl DecodedEvent {
    /// Solidity event name.
    pub fn name(&self) -> (r: &'static str)
        ensures
            r@ == match self {
                DecodedEvent::PoolGraduated(_) => "PoolGraduated"@,
                DecodedEvent::Launched(_) => "Launched"@,
                DecodedEvent::TokenLaunched(_) => "TokenLaunched"@,
            },
    {
        match self {
            DecodedEvent::PoolGraduated(_) => "PoolGraduated",
            DecodedEvent::Launched(_) => "Launched",
            DecodedEvent::TokenLaunched(_) => "TokenLaunched",
        }
    }

    /// The token address, common to every watched event.
    pub open spec fn spec_token(&self) -> Address {
        match self {
            DecodedEvent::PoolGraduated(e) => e.token,
            DecodedEvent::Launched(e) => e.token,
            DecodedEvent::TokenLaunched(e) => e.token,
        }
    }

    /// The token address, common to every watched event.
    pub fn token(&self) -> (r: Address)
        ensures
            r == self.spec_token(),
    {
        match self {
            DecodedEvent::PoolGraduated(e) => e.token,
            DecodedEvent::Launched(e) => e.token,
            DecodedEvent::TokenLaunched(e) => e.token,
        }
    }
}

/// Dispatches a log by topic 0 and decodes it. `None` if topic 0 is unknown
/// or the log does not fit the event's layout.
pub fn decode(log: &LogRecord) -> (r: Option<DecodedEvent>)
    ensures
        match r {
            Some(d) => decoded_from(d, *log),
            None => !decodes(*log),
        },
{
    let which = dispatch(log);
    if which == 1 {
        if log.topics.len() != 2 || log.data.len() < 96 {
            return None;
        }
        Some(
            DecodedEvent::PoolGraduated(
                PoolGraduated {
                    token: log.read_topic_address(1),
                    positionId: U256::from_be_bytes(log.read_word(0)),
                    tokenAmount: U256::from_be_bytes(log.read_word(1)),
                    pairTokenAmount: U256::from_be_bytes(log.read_word(2)),
                },
            ),
        )
    } else if which == 2 {
        if log.topics.len() != 4 || log.data.len() < 96 {
            return None;
        }
        Some(
            DecodedEvent::Launched(
                Launched {
                    token: log.read_topic_address(1),
                    curve: log.read_topic_address(2),
                    recipient: log.read_topic_address(3),
                    launcher: log.read_address(0),
                    quoteSpent: U256::from_be_bytes(log.read_word(1)),
                    tokensReceived: U256::from_be_bytes(log.read_word(2)),
                },
            ),
        )
    } else if which == 3 {
        if log.topics.len() != 4 || log.data.len() < 224 {
            return None;
        }
        Some(
            DecodedEvent::TokenLaunched(
                TokenLaunched {
                    token: log.read_topic_address(1),
                    deployer: log.read_topic_address(2),
                    dexFactory: log.read_topic_address(3),
                    pairToken: log.read_address(0),
                    pool: log.read_address(1),
                    dexId: U256::from_be_bytes(log.read_word(2)),
                    launchConfigId: U256::from_be_bytes(log.read_word(3)),
                    positionId: U256::from_be_bytes(log.read_word(4)),
                    restrictionsEndBlock: U256::from_be_bytes(log.read_word(5)),
                    initialBuyAmount: U256::from_be_bytes(log.read_word(6)),
                },
            ),
        )
    } else {
        None
    }
}

/// The token of every watched event is the address in the log's first
/// indexed topic — never the pool, pair token or another argument.
pub proof fn lemma_token_is_first_topic(d: DecodedEvent, log: LogRecord)
    requires
        decoded_from(d, log),
    ensures
        d.spec_token().bytes@ == log.topic_address(1),
{
}

} // verus!
