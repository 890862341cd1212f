//! Typed bus payloads. One variant per fact; the emitting subsystem is the
//! first segment of [`Event::topic`].

pub mod detection;
pub mod trade;

use vstd::prelude::*;
use vstd::string::*;
use crate::bus::Level;
use crate::config::watchlist::{kind_text, TargetKind};
use crate::text::{
    ascii_lower_seq, concat3, decimal, has_prefix, lemma_decimal_injective, lowercase, owned,
    push_decimal, to_lowercase,
};

pub use detection::Detection;
pub use trade::TradeIntent;

verus! {

#[derive(Clone, Debug)]
pub enum Event {
    /// Startup: watchlist parsed, these chains are configured.
    Started { chains: Vec<String> },
    /// A chain's RPC providers are connected.
    ChainConnected { chain: String },
    /// A chain was skipped: its RPC endpoints could not be reached.
    ChainDown { chain: String, reason: String },
    /// A target's log subscription is live.
    Watching {
        chain: String,
        source: String,
        kind: TargetKind,
        address: String,
        signature: String,
    },
    /// A dropped subscription was re-established.
    Resubscribed { chain: String, source: String, attempt: u32 },
    /// Liveness tick for a chain's watchers. `None` age = no log seen yet.
    Alive { chain: String, last_log_age_secs: Option<u64> },
    /// A matching log could not be decoded with the configured ABI.
    Undecoded { chain: String, source: String, topic0: Option<String> },
    /// A subscription failed to start, or ended for good.
    WatchStopped { chain: String, source: String, reason: String },
    /// A launch or graduation, enriched with token / market state.
    Detection(Box<Detection>),
    /// The executor would buy on this signal (always a dry run).
    TradeIntent(Box<TradeIntent>),
    /// The executor passed on a signal, with the reason.
    TradeSkipped {
        chain: String,
        token: String,
        source: String,
        kind: TargetKind,
        reason: String,
    },
}

/// First segment of an event's topic.
pub open spec fn subsystem_text(e: Event) -> Seq<char> {
    match e {
        Event::Started { .. } => "app"@,
        Event::TradeIntent(_) | Event::TradeSkipped { .. } => "executor"@,
        _ => "listener"@,
    }
}

/// The dotted routing key `<subsystem>.<chain>.<kind>.<detail>`.
pub open spec fn topic_text(e: Event) -> Seq<char> {
    match e {
        Event::Started { .. } => "app.started"@,
        Event::ChainConnected { chain } => "listener."@ + chain@ + ".connected"@,
        Event::ChainDown { chain, .. } => "listener."@ + chain@ + ".down"@,
        Event::Watching { chain, kind, .. } => "listener."@ + chain@ + "."@ + kind_text(kind)
            + ".watching"@,
        Event::Resubscribed { chain, .. } => "listener."@ + chain@ + ".resubscribed"@,
        Event::Alive { chain, .. } => "listener."@ + chain@ + ".alive"@,
        Event::Undecoded { chain, .. } => "listener."@ + chain@ + ".undecoded"@,
        Event::WatchStopped { chain, .. } => "listener."@ + chain@ + ".watch_stopped"@,
        Event::Detection(d) => "listener."@ + d.chain@ + "."@ + kind_text(d.kind) + "."@
            + d.event@,
        Event::TradeIntent(i) => "executor."@ + i.chain@ + "."@ + kind_text(i.kind)
            + ".intent"@,
        Event::TradeSkipped { chain, kind, .. } => "executor."@ + chain@ + "."@ + kind_text(kind)
            + ".skip"@,
    }
}

/// Severity of an event.
pub open spec fn level_of(e: Event) -> Level {
    match e {
        Event::Undecoded { .. } => Level::Warn,
        Event::ChainDown { .. } | Event::WatchStopped { .. } => Level::Error,
        _ => Level::Info,
    }
}

/// `<chain>:<token lowercased>`, the per-token join key.
pub open spec fn trace_text(e: Event) -> Option<Seq<char>> {
    match e {
        Event::Detection(d) => Some(d.chain@ + ":"@ + lowercase(d.token.address@)),
        Event::TradeIntent(i) => Some(i.chain@ + ":"@ + lowercase(i.token@)),
        Event::TradeSkipped { chain, token, .. } => Some(chain@ + ":"@ + lowercase(token@)),
        _ => None,
    }
}

/// For an ASCII token text, the join key `k` lowercases its `A`–`Z` only.
pub open spec fn ascii_trace(e: Event, k: Option<Seq<char>>) -> bool {
    match e {
        Event::Detection(d) => vstd::utf8::is_ascii_chars(d.token.address@) ==> k == Some(
            d.chain@ + ":"@ + ascii_lower_seq(d.token.address@),
        ),
        Event::TradeIntent(i) => vstd::utf8::is_ascii_chars(i.token@) ==> k == Some(
            i.chain@ + ":"@ + ascii_lower_seq(i.token@),
        ),
        Event::TradeSkipped { chain, token, .. } => vstd::utf8::is_ascii_chars(token@) ==> k
            == Some(chain@ + ":"@ + ascii_lower_seq(token@)),
        _ => true,
    }
}

/// `<chain>:<tx>:<log_index>`, the dedup identity of a detection.
pub open spec fn event_id_text(e: Event) -> Option<Seq<char>> {
    match e {
        Event::Detection(d) => Some(
            d.chain@ + ":"@ + d.tx_hash@ + ":"@ + decimal(d.log_index as nat),
        ),
        _ => None,
    }
}

fn listener_topic(chain: &String, suffix: &str) -> (r: String)
    ensures
        r@ == "listener."@ + chain@ + suffix@,
{
    concat3("listener.", chain.as_str(), suffix)
}

fn join_key(chain: &String, token: &String) -> (r: String)
    ensures
        r@ == chain@ + ":"@ + lowercase(token@),
        vstd::utf8::is_ascii_chars(token@) ==> r@ == chain@ + ":"@ + ascii_lower_seq(token@),
{
    let lower = to_lowercase(token.as_str());
    concat3(chain.as_str(), ":", lower.as_str())
}

fn kind_topic(head: &str, chain: &String, kind: TargetKind, tail: &str) -> (r: String)
    ensures
        r@ == head@ + chain@ + "."@ + kind_text(kind) + tail@,
{
    let mut s = owned(head);
    s.append(chain.as_str());
    s.append(".");
    s.append(kind.as_str());
    s.append(tail);
    s
}

impl Event {
    /// First segment of the topic and the envelope `subsystem` field.
    pub fn subsystem(&self) -> (r: &'static str)
        ensures
            r@ == subsystem_text(*self),
    {
        match self {
            Event::Started { .. } => "app",
            Event::TradeIntent(_) | Event::TradeSkipped { .. } => "executor",
            _ => "listener",
        }
    }

    /// Dotted routing key `<subsystem>.<chain>.<kind>.<detail>`.
    pub fn topic(&self) -> (r: String)
        ensures
            r@ == topic_text(*self),
    {
        match self {
            Event::Started { .. } => owned("app.started"),
            Event::ChainConnected { chain } => listener_topic(chain, ".connected"),
            Event::ChainDown { chain, .. } => listener_topic(chain, ".down"),
            Event::Watching { chain, kind, .. } => kind_topic("listener.", chain, *kind, ".watching"),
            Event::Resubscribed { chain, .. } => listener_topic(chain, ".resubscribed"),
            Event::Alive { chain, .. } => listener_topic(chain, ".alive"),
            Event::Undecoded { chain, .. } => listener_topic(chain, ".undecoded"),
            Event::WatchStopped { chain, .. } => listener_topic(chain, ".watch_stopped"),
            Event::Detection(d) => {
                let mut s = kind_topic("listener.", &d.chain, d.kind, ".");
                s.append(d.event);
                s
            },
            Event::TradeIntent(i) => kind_topic("executor.", &i.chain, i.kind, ".intent"),
            Event::TradeSkipped { chain, kind, .. } => kind_topic("executor.", chain, *kind, ".skip"),
        }
    }

    pub fn level(&self) -> (r: Level)
        ensures
            r == level_of(*self),
    {
        match self {
            Event::Undecoded { .. } => Level::Warn,
            Event::ChainDown { .. } | Event::WatchStopped { .. } => Level::Error,
            _ => Level::Info,
        }
    }

    /// `<chain>:<token>` — the per-token join key, set on detections and on
    /// the executor's answers to them.
    pub fn trace_id(&self) -> (r: Option<String>)
        ensures
            crate::text::opt_text(r) == trace_text(*self),
            ascii_trace(*self, crate::text::opt_text(r)),
    {
        match self {
            Event::Detection(d) => Some(join_key(&d.chain, &d.token.address)),
            Event::TradeIntent(i) => Some(join_key(&i.chain, &i.token)),
            Event::TradeSkipped { chain, token, .. } => Some(join_key(chain, token)),
            _ => None,
        }
    }

    /// `<chain>:<tx>:<log_index>` — dedup identity, set on detections.
    pub fn event_id(&self) -> (r: Option<String>)
        ensures
            crate::text::opt_text(r) == event_id_text(*self),
    {
        match self {
            Event::Detection(d) => {
                let mut s = concat3(d.chain.as_str(), ":", d.tx_hash.as_str());
                s.append(":");
                push_decimal(&mut s, d.log_index);
                Some(s)
            },
            _ => None,
        }
    }
}

/// The envelope's `subsystem` is the first dotted segment of its topic:
/// every topic starts with the subsystem followed by a dot.
pub proof fn lemma_topic_begins_with_subsystem(e: Event)
    ensures
        has_prefix(topic_text(e), subsystem_text(e) + "."@),
{
    reveal_strlit("app.started");
    reveal_strlit("app");
    reveal_strlit(".");
    reveal_strlit("listener.");
    reveal_strlit("listener");
    reveal_strlit("executor.");
    reveal_strlit("executor");
    let t = topic_text(e);
    let p = subsystem_text(e) + "."@;
    match e {
        Event::Started { .. } => {
            assert(t.subrange(0, p.len() as int) =~= p);
        },
        Event::TradeIntent(i) => {
            assert(t =~= "executor."@ + (i.chain@ + "."@ + kind_text(i.kind) + ".intent"@));
            assert(t.subrange(0, p.len() as int) =~= p);
        },
        Event::TradeSkipped { chain, kind, .. } => {
            assert(t =~= "executor."@ + (chain@ + "."@ + kind_text(kind) + ".skip"@));
            assert(t.subrange(0, p.len() as int) =~= p);
        },
        Event::Watching { chain, kind, .. } => {
            assert(t =~= "listener."@ + (chain@ + "."@ + kind_text(kind) + ".watching"@));
            assert(t.subrange(0, p.len() as int) =~= p);
        },
        Event::Detection(d) => {
            assert(t =~= "listener."@ + (d.chain@ + "."@ + kind_text(d.kind) + "."@ + d.event@));
            assert(t.subrange(0, p.len() as int) =~= p);
        },
        Event::ChainConnected { chain } => {
            assert(t =~= "listener."@ + (chain@ + ".connected"@));
            assert(t.subrange(0, p.len() as int) =~= p);
        },
        Event::ChainDown { chain, .. } => {
            assert(t =~= "listener."@ + (chain@ + ".down"@));
            assert(t.subrange(0, p.len() as int) =~= p);
        },
        Event::Resubscribed { chain, .. } => {
            assert(t =~= "listener."@ + (chain@ + ".resubscribed"@));
            assert(t.subrange(0, p.len() as int) =~= p);
        },
        Event::Alive { chain, .. } => {
            assert(t =~= "listener."@ + (chain@ + ".alive"@));
            assert(t.subrange(0, p.len() as int) =~= p);
        },
        Event::Undecoded { chain, .. } => {
            assert(t =~= "listener."@ + (chain@ + ".undecoded"@));
            assert(t.subrange(0, p.len() as int) =~= p);
        },
        Event::WatchStopped { chain, .. } => {
            assert(t =~= "listener."@ + (chain@ + ".watch_stopped"@));
            assert(t.subrange(0, p.len() as int) =~= p);
        },
    }
}

/// A detection's join key depends only on its chain and token: a launch and
/// the later graduation of the same token on the same chain share a
/// `trace_id`, whatever their kind, protocol or event.
pub proof fn lemma_trace_id_joins_token(d1: Detection, d2: Detection)
    requires
        d1.chain@ == d2.chain@,
        d1.token.address@ == d2.token.address@,
    ensures
        trace_text(Event::Detection(Box::new(d1))) == trace_text(Event::Detection(Box::new(d2))),
{
}

/// Join keys are chain-scoped: the same token on two differently named
/// chains (names without `:`) gets two different `trace_id`s.
pub proof fn lemma_trace_id_chain_scoped(d1: Detection, d2: Detection)
    requires
        d1.chain@ != d2.chain@,
        !d1.chain@.contains(':'),
        !d2.chain@.contains(':'),
    ensures
        trace_text(Event::Detection(Box::new(d1))) != trace_text(Event::Detection(Box::new(d2))),
{
    let c1 = d1.chain@;
    let c2 = d2.chain@;
    let x1 = c1 + ":"@ + lowercase(d1.token.address@);
    let x2 = c2 + ":"@ + lowercase(d2.token.address@);
    reveal_strlit(":");
    if x1 == x2 {
        if c1.len() < c2.len() {
            assert(x1[c1.len() as int] == ':');
            assert(x2[c1.len() as int] == c2[c1.len() as int]);
            assert(c2.contains(':'));
        } else if c2.len() < c1.len() {
            assert(x2[c2.len() as int] == ':');
            assert(x1[c2.len() as int] == c1[c2.len() as int]);
            assert(c1.contains(':'));
        } else {
            assert(c1 =~= x1.subrange(0, c1.len() as int));
            assert(c2 =~= x2.subrange(0, c2.len() as int));
        }
    }
}

/// Splitting at the first `:`: when the heads hold no `:`, equal joins have
/// equal heads and equal tails.
proof fn lemma_split_at_colon(a1: Seq<char>, r1: Seq<char>, a2: Seq<char>, r2: Seq<char>)
    requires
        !a1.contains(':'),
        !a2.contains(':'),
        a1 + ":"@ + r1 == a2 + ":"@ + r2,
    ensures
        a1 == a2,
        r1 == r2,
{
    reveal_strlit(":");
    let x1 = a1 + ":"@ + r1;
    let x2 = a2 + ":"@ + r2;
    if a1.len() < a2.len() {
        assert(x1[a1.len() as int] == ':');
        assert(x2[a1.len() as int] == a2[a1.len() as int]);
        assert(a2.contains(':'));
    } else if a2.len() < a1.len() {
        assert(x2[a2.len() as int] == ':');
        assert(x1[a2.len() as int] == a1[a2.len() as int]);
        assert(a1.contains(':'));
    } else {
        assert(a1 =~= x1.subrange(0, a1.len() as int));
        assert(a2 =~= x2.subrange(0, a2.len() as int));
        assert(r1 =~= x1.subrange(a1.len() as int + 1, x1.len() as int));
        assert(r2 =~= x2.subrange(a2.len() as int + 1, x2.len() as int));
    }
}

/// `event_id` identifies a detection's log: on chains and transaction
/// hashes without `:`, two detections share an `event_id` only when they
/// come from the same chain, transaction and log index.
pub proof fn lemma_event_id_identifies(d1: Detection, d2: Detection)
    requires
        !d1.chain@.contains(':'),
        !d2.chain@.contains(':'),
        !d1.tx_hash@.contains(':'),
        !d2.tx_hash@.contains(':'),
        event_id_text(Event::Detection(Box::new(d1))) == event_id_text(
            Event::Detection(Box::new(d2)),
        ),
    ensures
        d1.chain@ == d2.chain@,
        d1.tx_hash@ == d2.tx_hash@,
        d1.log_index == d2.log_index,
{
    let n1 = decimal(d1.log_index as nat);
    let n2 = decimal(d2.log_index as nat);
    let rest1 = d1.tx_hash@ + ":"@ + n1;
    let rest2 = d2.tx_hash@ + ":"@ + n2;
    assert(d1.chain@ + ":"@ + d1.tx_hash@ + ":"@ + n1 =~= d1.chain@ + ":"@ + rest1);
    assert(d2.chain@ + ":"@ + d2.tx_hash@ + ":"@ + n2 =~= d2.chain@ + ":"@ + rest2);
    lemma_split_at_colon(d1.chain@, rest1, d2.chain@, rest2);
    lemma_split_at_colon(d1.tx_hash@, n1, d2.tx_hash@, n2);
    lemma_decimal_injective(d1.log_index as nat, d2.log_index as nat);
}

/// Severity: an event is an error exactly when a chain is down or a watch
/// stopped, a warning exactly when a log did not decode, and informational
/// otherwise (a live subscription, a detection, a trade answer, …).
pub proof fn lemma_level_by_kind(e: Event)
    ensures
        (level_of(e) == Level::Error) <==> (e is ChainDown || e is WatchStopped),
        (level_of(e) == Level::Warn) <==> e is Undecoded,
        (level_of(e) == Level::Info) <==> !(e is ChainDown || e is WatchStopped || e is Undecoded),
{
}

} // verus!
