//! The `chains.*` event stream: typed events routed under `chains.*` topics,
//! with a raw decoded payload on detections.

pub mod contracts;
pub mod listener;

use vstd::prelude::*;
use vstd::string::*;
use crate::config::watchlist::{kind_text, TargetKind};
use crate::contracts::TokenMetadata;
use crate::text::{concat3, owned};

verus! {

/// A JSON value, carried through untouched.
#[verifier::external_type_specification]
#[verifier::external_body]
pub struct ExJsonValue(serde_json::Value);

/// Severity, for consumers that rank or colour events. Others ignore it.
#[derive(Clone, Copy, Debug, PartialEq, Eq, Structural)]
pub enum Level {
    Info,
    Warn,
    Error,
}

/// Anything worth reacting to. One variant per fact, not per log line.
#[derive(Debug)]
pub enum Event {
    /// Startup: watchlist parsed, these chains are configured.
    Started { chains: Vec<String> },
    /// A chain's RPC providers are connected.
    ChainConnected { chain: String },
    /// A chain was skipped: its RPC endpoints could not be reached.
    ChainDown { chain: String, reason: String },
    /// A target's log subscription is live.
    Watching {
        chain: String,
        source: String,
        kind: TargetKind,
        address: String,
        signature: String,
    },
    /// A matching log could not be decoded with the configured ABI.
    Undecoded { chain: String, source: String, topic0: Option<String> },
    /// A subscription could not start or has ended.
    WatchStopped { chain: String, source: String, reason: String },
    /// A launch or graduation was detected.
    Detection(Detection),
}

/// A confirmed on-chain launch or graduation.
#[derive(Debug)]
pub struct Detection {
    pub chain: String,
    pub kind: TargetKind,
    /// Configured target name, e.g. `"PonsFamily V2"`.
    pub source: String,
    /// Solidity event name, e.g. `"TokenLaunched"`.
    pub event: &'static str,
    pub token: String,
    pub block_number: Option<u64>,
    pub tx_hash: Option<String>,
    pub metadata: Option<TokenMetadata>,
    /// Decoded event fields, shape depends on `event`.
    pub payload: serde_json::Value,
}

/// Dotted routing key, e.g. `chains.rh.launch.TokenLaunched`.
pub open spec fn topic_text(e: Event) -> Seq<char> {
    match e {
        Event::Started { .. } => "app.started"@,
        Event::ChainConnected { chain } => "chains."@ + chain@ + ".connected"@,
        Event::ChainDown { chain, .. } => "chains."@ + chain@ + ".down"@,
        Event::Watching { chain, kind, .. } => "chains."@ + chain@ + "."@ + kind_text(kind)
            + ".watching"@,
        Event::Undecoded { chain, .. } => "chains."@ + chain@ + ".undecoded"@,
        Event::WatchStopped { chain, .. } => "chains."@ + chain@ + ".watch_stopped"@,
        Event::Detection(d) => "chains."@ + d.chain@ + "."@ + kind_text(d.kind) + "."@
            + d.event@,
    }
}

/// Severity of an event.
pub open spec fn level_of(e: Event) -> Level {
    match e {
        Event::Undecoded { .. } => Level::Warn,
        Event::WatchStopped { .. } | Event::ChainDown { .. } => Level::Error,
        _ => Level::Info,
    }
}

fn chain_topic(chain: &String, suffix: &str) -> (r: String)
    ensures
        r@ == "chains."@ + chain@ + suffix@,
{
    concat3("chains.", chain.as_str(), suffix)
}

fn chain_kind_topic(chain: &String, kind: TargetKind, tail: &str) -> (r: String)
    ensures
        r@ == "chains."@ + chain@ + "."@ + kind_text(kind) + tail@,
{
    let mut s = chain_topic(chain, ".");
    s.append(kind.as_str());
    s.append(tail);
    s
}

impl Event {
    /// Dotted routing key, e.g. `chains.rh.launch.TokenLaunched`.
    pub fn topic(&self) -> (r: String)
        ensures
            r@ == topic_text(*self),
    {
        match self {
            Event::Started { .. } => owned("app.started"),
            Event::ChainConnected { chain } => chain_topic(chain, ".connected"),
            Event::ChainDown { chain, .. } => chain_topic(chain, ".down"),
            Event::Watching { chain, kind, .. } => chain_kind_topic(chain, *kind, ".watching"),
            Event::Undecoded { chain, .. } => chain_topic(chain, ".undecoded"),
            Event::WatchStopped { chain, .. } => chain_topic(chain, ".watch_stopped"),
            Event::Detection(d) => {
                let mut s = chain_kind_topic(&d.chain, d.kind, ".");
                s.append(d.event);
                s
            },
        }
    }

    pub fn level(&self) -> (r: Level)
        ensures
            r == level_of(*self),
    {
        match self {
            Event::Undecoded { .. } => Level::Warn,
            Event::WatchStopped { .. } | Event::ChainDown { .. } => Level::Error,
            _ => Level::Info,
        }
    }
}

/// Severity: an event is an error exactly when a chain is down or a watch
/// stopped, a warning exactly when a log did not decode, and informational
/// otherwise.
pub proof fn lemma_level_by_kind(e: Event)
    ensures
        (level_of(e) == Level::Error) <==> (e is ChainDown || e is WatchStopped),
        (level_of(e) == Level::Warn) <==> e is Undecoded,
        (level_of(e) == Level::Info) <==> !(e is ChainDown || e is WatchStopped || e is Undecoded),
{
}

} // verus!
