//! The watched events with positional field names (factory `Launched` with
//! its pool and quote token, `TokenLaunched` with numbered arguments),
//! decoding a raw log into them, and ERC-20 token metadata.
//!
//! The signatures and the indexed layout are those of
//! [`crate::chain::contracts`]; only the field names differ. A mismatch
//! surfaces as an undecoded log, never a panic.

#![allow(non_snake_case)]

use vstd::prelude::*;
use vstd::string::*;
use crate::chain::contracts::{
    dispatch, is_launched_log, is_pool_graduated_log, is_token_launched_log, PoolGraduated,
};
use crate::chain::log::LogRecord;
use crate::primitives::{Address, U256};
use crate::text::{or_question, text_or_question};

verus! {

/// `Launched(address indexed token, address indexed pool, address indexed deployer, address quoteToken, uint256 arg4, uint256 arg5)`.
#[derive(Clone, Copy, Debug)]
pub struct Launched {
    pub token: Address,
    pub pool: Address,
    pub deployer: Address,
    pub quoteToken: Address,
    pub arg4: U256,
    pub arg5: U256,
}

/// `TokenLaunched(address indexed token, address indexed pool, address indexed deployer, address quoteToken, address arg4, uint256 arg5, …, uint256 arg9)`.
#[derive(Clone, Copy, Debug)]
pub struct TokenLaunched {
    pub token: Address,
    pub pool: Address,
    pub deployer: Address,
    pub quoteToken: Address,
    pub arg4: Address,
    pub arg5: U256,
    pub arg6: U256,
    pub arg7: U256,
    pub arg8: U256,
    pub arg9: U256,
}

/// A log decoded into a known event.
#[derive(Clone, Copy, Debug)]
pub enum DecodedEvent {
    PoolGraduated(PoolGraduated),
    Launched(Launched),
    TokenLaunched(TokenLaunched),
}

/// `e` holds the fields of a `Launched` log.
pub open spec fn launched_from(e: Launched, log: LogRecord) -> bool {
    &&& e.token.bytes@ == log.topic_address(1)
    &&& e.pool.bytes@ == log.topic_address(2)
    &&& e.deployer.bytes@ == log.topic_address(3)
    &&& e.quoteToken.bytes@ == log.word(0).subrange(12, 32)
    &&& e.arg4.be@ == log.word(1)
    &&& e.arg5.be@ == log.word(2)
}

/// `e` holds the fields of a `TokenLaunched` log.
pub open spec fn token_launched_from(e: TokenLaunched, log: LogRecord) -> bool {
    &&& e.token.bytes@ == log.topic_address(1)
    &&& e.pool.bytes@ == log.topic_address(2)
    &&& e.deployer.bytes@ == log.topic_address(3)
    &&& e.quoteToken.bytes@ == log.word(0).subrange(12, 32)
    &&& e.arg4.bytes@ == log.word(1).subrange(12, 32)
    &&& e.arg5.be@ == log.word(2)
    &&& e.arg6.be@ == log.word(3)
    &&& e.arg7.be@ == log.word(4)
    &&& e.arg8.be@ == log.word(5)
    &&& e.arg9.be@ == log.word(6)
}

/// `d` is the decoding of `log`.
pub open spec fn decoded_from(d: DecodedEvent, log: LogRecord) -> bool {
    match d {
        DecodedEvent::PoolGraduated(e) => is_pool_graduated_log(log)
            && crate::chain::contracts::pool_graduated_from(e, log),
        DecodedEvent::Launched(e) => is_launched_log(log) && launched_from(e, log),
        DecodedEvent::TokenLaunched(e) => is_token_launched_log(log) && token_launched_from(e, log),
    }
}

impl DecodedEvent {
    /// Solidity event name.
    pub fn name(&self) -> (r: &'static str)
        ensures
            r@ == match self {
                DecodedEvent::PoolGraduated(_) => "PoolGraduated"@,
                DecodedEvent::Launched(_) => "Launched"@,
                DecodedEvent::TokenLaunched(_) => "TokenLaunched"@,
            },
    {
        match self {
            DecodedEvent::PoolGraduated(_) => "PoolGraduated",
            DecodedEvent::Launched(_) => "Launched",
            DecodedEvent::TokenLaunched(_) => "TokenLaunched",
        }
    }

    /// The token address, common to every watched event.
    pub open spec fn token_address(&self) -> Address {
        match self {
            DecodedEvent::PoolGraduated(e) => e.token,
            DecodedEvent::Launched(e) => e.token,
            DecodedEvent::TokenLaunched(e) => e.token,
        }
    }

    /// The token address, common to every watched event.
    pub fn token(&self) -> (r: Address)
        ensures
            r == self.token_address(),
    {
        match self {
            DecodedEvent::PoolGraduated(e) => e.token,
            DecodedEvent::Launched(e) => e.token,
            DecodedEvent::TokenLaunched(e) => e.token,
        }
    }
}

/// Dispatches a log by topic 0. `None` if topic 0 is unknown or the payload
/// does not match the configured ABI.
pub fn decode(log: &LogRecord) -> (r: Option<DecodedEvent>)
    ensures
        match r {
            Some(d) => decoded_from(d, *log),
            None => !crate::chain::contracts::decodes(*log),
        },
{
    let which = dispatch(log);
    if which == 1 {
        if log.topics.len() != 2 || log.data.len() < 96 {
            return None;
        }
        Some(
            DecodedEvent::PoolGraduated(
                PoolGraduated {
                    token: log.read_topic_address(1),
                    positionId: U256::from_be_bytes(log.read_word(0)),
                    tokenAmount: U256::from_be_bytes(log.read_word(1)),
                    pairTokenAmount: U256::from_be_bytes(log.read_word(2)),
                },
            ),
        )
    } else if which == 2 {
        if log.topics.len() != 4 || log.data.len() < 96 {
            return None;
        }
        Some(
            DecodedEvent::Launched(
                Launched {
                    token: log.read_topic_address(1),
                    pool: log.read_topic_address(2),
                    deployer: log.read_topic_address(3),
                    quoteToken: log.read_address(0),
                    arg4: U256::from_be_bytes(log.read_word(1)),
                    arg5: U256::from_be_bytes(log.read_word(2)),
                },
            ),
        )
    } else if which == 3 {
        if log.topics.len() != 4 || log.data.len() < 224 {
            return None;
        }
        Some(
            DecodedEvent::TokenLaunched(
                TokenLaunched {
                    token: log.read_topic_address(1),
                    pool: log.read_topic_address(2),
                    deployer: log.read_topic_address(3),
                    quoteToken: log.read_address(0),
                    arg4: log.read_address(1),
                    arg5: U256::from_be_bytes(log.read_word(2)),
                    arg6: U256::from_be_bytes(log.read_word(3)),
                    arg7: U256::from_be_bytes(log.read_word(4)),
                    arg8: U256::from_be_bytes(log.read_word(5)),
                    arg9: U256::from_be_bytes(log.read_word(6)),
                },
            ),
        )
    } else {
        None
    }
}

/// Token metadata; a field is `None` when the call reverts (non-standard
/// token).
#[derive(Clone, Debug)]
pub struct TokenMetadata {
    pub name: Option<String>,
    pub symbol: Option<String>,
    pub decimals: Option<u8>,
}

/// `SYMBOL (name)`, with `?` for a missing field.
pub open spec fn label_text(symbol: Option<String>, name: Option<String>) -> Seq<char> {
    or_question(symbol) + " ("@ + or_question(name) + ")"@
}

impl TokenMetadata {
    /// `SYMBOL (name)` for display, `?` for missing fields.
    pub fn label(&self) -> (r: String)
        ensures
            r@ == label_text(self.symbol, self.name),
    {
        let mut out = text_or_question(&self.symbol);
        out.append(" (");
        let name = text_or_question(&self.name);
        out.append(name.as_str());
        out.append(")");
        out
    }
}

/// The token of every watched event is the address in the log's first
/// indexed topic — never the pool, quote token or another argument.
pub proof fn lemma_token_is_first_topic(d: DecodedEvent, log: LogRecord)
    requires
        decoded_from(d, log),
    ensures
        d.token_address().bytes@ == log.topic_address(1),
{
}

} // verus!
