//! One coloured line per event of the `chains.*` stream.

use vstd::prelude::*;
use vstd::string::*;
use crate::consumer::style::{
    bold, bold_cyan, cyan, dim, green, painted, red, short_hex, short_hex_cuts, short_hex_defined,
    short_hex_text, yellow,
};
use crate::contracts::label_text;
use crate::event::{Event, Level};
use crate::text::{
    concat2, concat3, decimal, has_prefix, join, joined, owned, push_decimal, texts,
};

verus! {

/// The coloured, fixed-width severity tag.
pub open spec fn level_tag_text(level: Level, on: bool) -> Seq<char> {
    match level {
        Level::Info => painted("32"@, "INFO "@, on),
        Level::Warn => painted("33"@, "WARN "@, on),
        Level::Error => painted("31"@, "ERROR"@, on),
    }
}

/// The coloured, fixed-width severity tag.
pub fn level_tag(level: Level, on: bool) -> (r: String)
    ensures
        r@ == level_tag_text(level, on),
{
    match level {
        Level::Info => green("INFO ", on),
        Level::Warn => yellow("WARN ", on),
        Level::Error => red("ERROR", on),
    }
}

/// One line: time, severity tag, topic, summary.
pub open spec fn line_text(
    ts: Seq<char>,
    tag: Seq<char>,
    topic: Seq<char>,
    summary: Seq<char>,
    on: bool,
) -> Seq<char> {
    painted("2"@, ts, on) + " "@ + tag + " "@ + painted("1;36"@, topic, on) + " "@ + summary
}

/// One line: time, severity tag, topic, summary.
pub fn line(ts: &str, tag: &str, topic: &str, summary: &str, on: bool) -> (r: String)
    ensures
        r@ == line_text(ts@, tag@, topic@, summary@, on),
{
    let mut out = dim(ts, on);
    out.append(" ");
    out.append(tag);
    out.append(" ");
    let t = bold_cyan(topic, on);
    out.append(t.as_str());
    out.append(" ");
    out.append(summary);
    out
}

/// The hex fields a summary shortens can be cut where it cuts them.
pub open spec fn summary_defined(e: Event) -> bool {
    match e {
        Event::Watching { address, .. } => short_hex_defined(address@),
        Event::Undecoded { topic0, .. } => match topic0 {
            Some(t) => short_hex_defined(t@),
            None => short_hex_defined("none"@),
        },
        Event::Detection(d) => short_hex_defined(d.token@),
        _ => true,
    }
}

/// The human summary of an event.
pub open spec fn summary_text(e: Event, on: bool) -> Seq<char> {
    match e {
        Event::Started { chains } => "watching "@ + joined(texts(chains@), ", "@),
        Event::ChainConnected { chain } => chain@ + ": RPC connected"@,
        Event::ChainDown { chain, reason } => chain@ + ": "@ + reason@,
        Event::Watching { address, signature, .. } => painted(
            "2"@,
            short_hex_text(address@),
            on,
        ) + " "@ + signature@,
        Event::Undecoded { source, topic0, .. } => source@ + ": log did not match ABI (topic0 "@
            + short_hex_text(
            match topic0 {
                Some(t) => t@,
                None => "none"@,
            },
        ) + ")"@,
        Event::WatchStopped { source, reason, .. } => source@ + ": "@ + reason@,
        Event::Detection(d) => painted("36"@, d.source@, on) + " "@ + painted(
            "1"@,
            match d.metadata {
                Some(m) => label_text(m.symbol, m.name),
                None => "?"@,
            },
            on,
        ) + "  token "@ + painted("2"@, short_hex_text(d.token@), on) + match d.block_number {
            Some(block) => painted("2"@, "  block "@ + decimal(block as nat), on),
            None => Seq::empty(),
        },
    }
}

/// Whether [`summary`] can render `event`: the check a caller makes before
/// calling it.
pub fn summary_renders(event: &Event) -> (r: bool)
    ensures
        r == summary_defined(*event),
{
    match event {
        Event::Watching { address, .. } => short_hex_cuts(address.as_str()),
        Event::Undecoded { topic0, .. } => match topic0 {
            Some(t) => short_hex_cuts(t.as_str()),
            None => short_hex_cuts("none"),
        },
        Event::Detection(d) => short_hex_cuts(d.token.as_str()),
        _ => true,
    }
}

/// The human summary of an event.
pub fn summary(event: &Event, on: bool) -> (r: String)
    requires
        summary_defined(*event),
    ensures
        r@ == summary_text(*event, on),
{
    match event {
        Event::Started { chains } => {
            let list = join(chains, ", ");
            concat2("watching ", list.as_str())
        },
        Event::ChainConnected { chain } => concat2(chain.as_str(), ": RPC connected"),
        Event::ChainDown { chain, reason } => concat3(chain.as_str(), ": ", reason.as_str()),
        Event::Watching { address, signature, .. } => {
            let short = short_hex(address.as_str());
            let mut out = dim(short.as_str(), on);
            out.append(" ");
            out.append(signature.as_str());
            out
        },
        Event::Undecoded { source, topic0, .. } => {
            let t: &str = match topic0 {
                Some(t) => t.as_str(),
                None => "none",
            };
            let short = short_hex(t);
            let mut out = concat2(source.as_str(), ": log did not match ABI (topic0 ");
            out.append(short.as_str());
            out.append(")");
            out
        },
        Event::WatchStopped { source, reason, .. } => concat3(
            source.as_str(),
            ": ",
            reason.as_str(),
        ),
        Event::Detection(d) => {
            let label = match &d.metadata {
                Some(m) => m.label(),
                None => owned("?"),
            };
            let mut out = cyan(d.source.as_str(), on);
            out.append(" ");
            let b = bold(label.as_str(), on);
            out.append(b.as_str());
            out.append("  token ");
            let short = short_hex(d.token.as_str());
            let s = dim(short.as_str(), on);
            out.append(s.as_str());
            if let Some(block) = d.block_number {
                let mut text = owned("  block ");
                push_decimal(&mut text, block);
                let bl = dim(text.as_str(), on);
                out.append(bl.as_str());
            }
            out
        },
    }
}

/// A stopped watch is summarised by the target that stopped: the line
/// starts with the source's name and a colon, ends with the reason, and does
/// not depend on the chain.
pub proof fn lemma_stopped_names_source(
    chain1: String,
    chain2: String,
    source: String,
    reason: String,
    on: bool,
)
    ensures
        summary_text(Event::WatchStopped { chain: chain1, source, reason }, on) == summary_text(
            Event::WatchStopped { chain: chain2, source, reason },
            on,
        ),
        has_prefix(
            summary_text(Event::WatchStopped { chain: chain1, source, reason }, on),
            source@ + ": "@,
        ),
        ({
            let t = summary_text(Event::WatchStopped { chain: chain1, source, reason }, on);
            t.len() >= reason@.len() && t.subrange(t.len() - reason@.len(), t.len() as int)
                == reason@
        }),
{
    let t = summary_text(Event::WatchStopped { chain: chain1, source, reason }, on);
    assert(t.subrange(0, (source@ + ": "@).len() as int) =~= source@ + ": "@);
    assert(t.subrange(t.len() - reason@.len(), t.len() as int) =~= reason@);
}

} // verus!
