//! The logger's rendering. Human-readable lines by default; the raw envelope
//! as JSON when `DEBUG` is set to a true value. Writing to stdout, the clock
//! and the JSON encoding stay outside.

use vstd::prelude::*;
use vstd::string::*;
use crate::bus::num::Dec;
use crate::bus::Level;
use crate::consumer::style::{
    bold, bold_cyan, cyan, dim, green, painted, red, short_hex, short_hex_cuts, short_hex_defined,
    short_hex_text, yellow,
};
use crate::events::Event;
use crate::text::{
    ascii_lower_seq, concat2, concat3, decimal, has_prefix, join, joined, or_question, owned,
    push_decimal,
    text_or_question, texts, to_ascii_lowercase, trim, trim_str,
};

verus! {

/// Whether a `DEBUG` value asks for JSON output: `1`, `true` or `yes`, with
/// surrounding whitespace and ASCII case ignored.
pub open spec fn debug_value_on(v: Seq<char>) -> bool {
    let t = ascii_lower_seq(trim(v));
    t == "1"@ || t == "true"@ || t == "yes"@
}

/// Whether a `DEBUG` value asks for JSON output.
pub fn debug_enabled(v: &str) -> (r: bool)
    ensures
        r == debug_value_on(v@),
{
    let t = to_ascii_lowercase(trim_str(v));
    let one = owned("1");
    let yes_true = owned("true");
    let yes = owned("yes");
    t == one || t == yes_true || t == yes
}

/// The coloured, fixed-width severity tag.
pub open spec fn level_tag_text(level: Level, on: bool) -> Seq<char> {
    match level {
        Level::Info => painted("32"@, "INFO "@, on),
        Level::Warn => painted("33"@, "WARN "@, on),
        Level::Error => painted("31"@, "ERROR"@, on),
    }
}

/// The coloured, fixed-width severity tag.
pub fn level_tag(level: Level, on: bool) -> (r: String)
    ensures
        r@ == level_tag_text(level, on),
{
    match level {
        Level::Info => green("INFO ", on),
        Level::Warn => yellow("WARN ", on),
        Level::Error => red("ERROR", on),
    }
}

/// One human-readable line: time, severity tag, topic, summary.
pub open spec fn human_line_text(
    ts: Seq<char>,
    tag: Seq<char>,
    topic: Seq<char>,
    summary: Seq<char>,
    on: bool,
) -> Seq<char> {
    painted("2"@, ts, on) + " "@ + tag + " "@ + painted("1;36"@, topic, on) + " "@ + summary
}

/// One human-readable line: time, severity tag, topic, summary.
pub fn human_line(ts: &str, tag: &str, topic: &str, summary: &str, on: bool) -> (r: String)
    ensures
        r@ == human_line_text(ts@, tag@, topic@, summary@, on),
{
    let mut out = dim(ts, on);
    out.append(" ");
    out.append(tag);
    out.append(" ");
    let t = bold_cyan(topic, on);
    out.append(t.as_str());
    out.append(" ");
    out.append(summary);
    out
}

/// Topic of the logger's own lag warning.
pub const LAG_TOPIC: &'static str = "bus.logger.lagged";

/// Summary of the logger's own lag warning.
pub open spec fn lag_summary_text(dropped: u64) -> Seq<char> {
    "fell behind, dropped "@ + decimal(dropped as nat) + " events"@
}

/// Summary of the logger's own lag warning.
pub fn lag_summary(dropped: u64) -> (r: String)
    ensures
        r@ == lag_summary_text(dropped),
{
    let mut s = owned("fell behind, dropped ");
    push_decimal(&mut s, dropped);
    s.append(" events");
    s
}

/// The hex fields a summary shortens can be cut where it cuts them.
pub open spec fn summary_defined(e: Event) -> bool {
    match e {
        Event::Watching { address, .. } => short_hex_defined(address@),
        Event::Undecoded { topic0, .. } => match topic0 {
            Some(t) => short_hex_defined(t@),
            None => short_hex_defined("none"@),
        },
        Event::Detection(d) => short_hex_defined(d.token.address@),
        Event::TradeIntent(i) => short_hex_defined(i.target@),
        _ => true,
    }
}

/// The human summary of an event.
pub open spec fn summary_text(e: Event, on: bool) -> Seq<char> {
    match e {
        Event::Started { chains } => "watching "@ + joined(texts(chains@), ", "@),
        Event::ChainConnected { chain } => chain@ + ": RPC connected"@,
        Event::ChainDown { chain, reason } => chain@ + ": "@ + reason@,
        Event::Watching { address, signature, .. } => painted(
            "2"@,
            short_hex_text(address@),
            on,
        ) + " "@ + signature@,
        Event::Resubscribed { source, attempt, .. } => source@ + ": back after "@ + decimal(
            attempt as nat,
        ) + " attempt(s)"@,
        Event::Alive { last_log_age_secs, .. } => match last_log_age_secs {
            Some(age) => "last log "@ + decimal(age as nat) + "s ago"@,
            None => "no log yet"@,
        },
        Event::Undecoded { source, topic0, .. } => source@ + ": log did not match ABI (topic0 "@
            + short_hex_text(
            match topic0 {
                Some(t) => t@,
                None => "none"@,
            },
        ) + ")"@,
        Event::WatchStopped { source, reason, .. } => source@ + ": "@ + reason@,
        Event::Detection(d) => painted("36"@, d.protocol@, on) + " "@ + painted(
            "1"@,
            or_question(d.token.symbol) + " ("@ + or_question(d.token.name) + ")"@,
            on,
        ) + "  token "@ + painted("2"@, short_hex_text(d.token.address@), on) + painted(
            "2"@,
            "  block "@ + decimal(d.block_number as nat),
            on,
        ),
        Event::TradeIntent(i) => painted("1"@, or_question(i.symbol), on) + " "@ + painted(
            "2"@,
            "buy "@ + match i.amount_in {
                Some(a) => decimal(a.value()),
                None => "?"@,
            } + " "@ + i.quote_token@,
            on,
        ) + " on "@ + i.venue@ + " "@ + painted("2"@, short_hex_text(i.target@), on) + " "@
            + painted("2"@, "[dry-run]"@, on),
        Event::TradeSkipped { source, reason, .. } => source@ + ": "@ + reason@,
    }
}

fn amount_text(a: &Option<Dec>) -> (r: String)
    ensures
        r@ == match *a {
            Some(d) => decimal(d.value()),
            None => "?"@,
        },
{
    match a {
        Some(d) => d.to_string(),
        None => owned("?"),
    }
}

/// Whether [`summary`] can render `event`: the check a caller makes before
/// calling it.
pub fn summary_renders(event: &Event) -> (r: bool)
    ensures
        r == summary_defined(*event),
{
    match event {
        Event::Watching { address, .. } => short_hex_cuts(address.as_str()),
        Event::Undecoded { topic0, .. } => match topic0 {
            Some(t) => short_hex_cuts(t.as_str()),
            None => short_hex_cuts("none"),
        },
        Event::Detection(d) => short_hex_cuts(d.token.address.as_str()),
        Event::TradeIntent(i) => short_hex_cuts(i.target.as_str()),
        _ => true,
    }
}

/// The human summary of an event.
pub fn summary(event: &Event, on: bool) -> (r: String)
    requires
        summary_defined(*event),
    ensures
        r@ == summary_text(*event, on),
{
    match event {
        Event::Started { chains } => {
            let list = join(chains, ", ");
            concat2("watching ", list.as_str())
        },
        Event::ChainConnected { chain } => concat2(chain.as_str(), ": RPC connected"),
        Event::ChainDown { chain, reason } => concat3(chain.as_str(), ": ", reason.as_str()),
        Event::Watching { address, signature, .. } => {
            let short = short_hex(address.as_str());
            let mut out = dim(short.as_str(), on);
            out.append(" ");
            out.append(signature.as_str());
            out
        },
        Event::Resubscribed { source, attempt, .. } => {
            let mut out = concat2(source.as_str(), ": back after ");
            push_decimal(&mut out, *attempt as u64);
            out.append(" attempt(s)");
            out
        },
        Event::Alive { last_log_age_secs, .. } => match last_log_age_secs {
            Some(age) => {
                let mut out = owned("last log ");
                push_decimal(&mut out, *age);
                out.append("s ago");
                out
            },
            None => owned("no log yet"),
        },
        Event::Undecoded { source, topic0, .. } => {
            let t: &str = match topic0 {
                Some(t) => t.as_str(),
                None => "none",
            };
            let short = short_hex(t);
            let mut out = concat2(source.as_str(), ": log did not match ABI (topic0 ");
            out.append(short.as_str());
            out.append(")");
            out
        },
        Event::WatchStopped { source, reason, .. } => concat3(
            source.as_str(),
            ": ",
            reason.as_str(),
        ),
        Event::Detection(d) => {
            let sym = text_or_question(&d.token.symbol);
            let name = text_or_question(&d.token.name);
            let mut label = sym;
            label.append(" (");
            label.append(name.as_str());
            label.append(")");
            let mut out = cyan(d.protocol.as_str(), on);
            out.append(" ");
            let b = bold(label.as_str(), on);
            out.append(b.as_str());
            out.append("  token ");
            let short = short_hex(d.token.address.as_str());
            let s = dim(short.as_str(), on);
            out.append(s.as_str());
            let mut block = owned("  block ");
            push_decimal(&mut block, d.block_number);
            let bl = dim(block.as_str(), on);
            out.append(bl.as_str());
            out
        },
        Event::TradeIntent(i) => {
            let sym = text_or_question(&i.symbol);
            let size = amount_text(&i.amount_in);
            let mut buy = owned("buy ");
            buy.append(size.as_str());
            buy.append(" ");
            buy.append(i.quote_token.as_str());
            let mut out = bold(sym.as_str(), on);
            out.append(" ");
            let b = dim(buy.as_str(), on);
            out.append(b.as_str());
            out.append(" on ");
            out.append(i.venue.as_str());
            out.append(" ");
            let short = short_hex(i.target.as_str());
            let t = dim(short.as_str(), on);
            out.append(t.as_str());
            out.append(" ");
            let dr = dim("[dry-run]", on);
            out.append(dr.as_str());
            out
        },
        Event::TradeSkipped { source, reason, .. } => concat3(
            source.as_str(),
            ": ",
            reason.as_str(),
        ),
    }
}

/// A stopped watch is summarised by the target that stopped: the line
/// starts with the source's name and a colon, ends with the reason, and does
/// not depend on the chain.
pub proof fn lemma_stopped_names_source(
    chain1: String,
    chain2: String,
    source: String,
    reason: String,
    on: bool,
)
    ensures
        summary_text(Event::WatchStopped { chain: chain1, source, reason }, on) == summary_text(
            Event::WatchStopped { chain: chain2, source, reason },
            on,
        ),
        has_prefix(
            summary_text(Event::WatchStopped { chain: chain1, source, reason }, on),
            source@ + ": "@,
        ),
        ({
            let t = summary_text(Event::WatchStopped { chain: chain1, source, reason }, on);
            t.len() >= reason@.len() && t.subrange(t.len() - reason@.len(), t.len() as int)
                == reason@
        }),
{
    let t = summary_text(Event::WatchStopped { chain: chain1, source, reason }, on);
    assert(t.subrange(0, (source@ + ": "@).len() as int) =~= source@ + ": "@);
    assert(t.subrange(t.len() - reason@.len(), t.len() as int) =~= reason@);
}

} // verus!
