//! One chain's listener: the decisions around each target's reconnecting log
//! subscription and the chain's liveness heartbeat. The subscription itself,
//! the sleeps and the clock stay outside; this module says what to announce,
//! how long to back off, and what a log becomes.

use vstd::prelude::*;
use vstd::arithmetic::power2::{lemma2_to64, lemma_pow2_unfold, pow2};
use vstd::string::*;
use crate::chain::contracts::{decode, decoded_from, decodes, DecodedEvent};
use crate::chain::log::LogRecord;
use crate::config::watchlist::{signature_text, Target};
use crate::events::Event;
use crate::primitives::{
    address_parse_error, checksum_text, hex_body, hex_bytes, is_address_text, Address,
};
use crate::text::{concat2, opt_text, owned, prefixed_hex};

verus! {

/// Seconds between liveness ticks.
pub const HEARTBEAT_SECS: u64 = 30;

/// Longest pause between two subscribe attempts, in seconds.
pub const BACKOFF_MAX_SECS: u64 = 30;

/// A subscription that lasted at least this long (milliseconds) resets the
/// backoff.
pub const HEALTHY_AFTER_MILLIS: u128 = 60_000;

/// Reconnect bookkeeping of one target: how many attempts since the last
/// healthy subscription, and how long to wait before the next one.
#[derive(Clone, Copy, Debug)]
pub struct Backoff {
    pub attempt: u32,
    pub delay_secs: u64,
}

/// What to do after a subscription ended or failed.
#[derive(Clone, Copy, Debug)]
pub enum WatchStep {
    /// Subscribe again at once with this state.
    Resubscribe(Backoff),
    /// Wait `secs`, then subscribe with `then`.
    Sleep { secs: u64, then: Backoff },
}

impl Backoff {
    /// The delay stays between one second and [`BACKOFF_MAX_SECS`].
    pub open spec fn wf(&self) -> bool {
        1 <= self.delay_secs <= BACKOFF_MAX_SECS
    }

    /// The state after a wait: one more attempt, the delay doubled up to the cap.
    pub open spec fn spec_next(&self) -> Backoff {
        Backoff {
            attempt: (self.attempt + 1) as u32,
            delay_secs: if 2 * self.delay_secs > BACKOFF_MAX_SECS {
                BACKOFF_MAX_SECS
            } else {
                (2 * self.delay_secs) as u64
            },
        }
    }

    /// Before the first subscribe: no attempt yet, a one-second delay.
    pub fn new() -> (r: Backoff)
        ensures
            r.attempt == 0,
            r.delay_secs == 1,
            r.wf(),
    {
        Backoff { attempt: 0, delay_secs: 1 }
    }

    /// The announcement of a live subscription: `Watching` on the first
    /// attempt, `Resubscribed` with the attempt count afterwards.
    pub fn announce(&self, chain: &String, target: &Target, address: &Address) -> (e: Event)
        ensures
            self.attempt == 0 ==> (e matches Event::Watching { chain: c, source, kind, address: a, signature }
                && c@ == chain@ && source@ == target.name@ && kind == target.kind && a@
                == checksum_text(address.bytes@) && signature@ == signature_text(target.event@)),
            self.attempt != 0 ==> (e matches Event::Resubscribed { chain: c, source, attempt }
                && c@ == chain@ && source@ == target.name@ && attempt == self.attempt),
    {
        if self.attempt == 0 {
            Event::Watching {
                chain: owned(chain.as_str()),
                source: owned(target.name.as_str()),
                kind: target.kind,
                address: address.to_checksum_string(),
                signature: owned(target.event_signature()),
            }
        } else {
            Event::Resubscribed {
                chain: owned(chain.as_str()),
                source: owned(target.name.as_str()),
                attempt: self.attempt,
            }
        }
    }

    /// Wait the current delay, then try again with [`Self::spec_next`].
    pub fn retry(&self) -> (r: WatchStep)
        requires
            self.attempt < u32::MAX,
        ensures
            r == (WatchStep::Sleep { secs: self.delay_secs, then: self.spec_next() }),
    {
        let doubled = if self.delay_secs > BACKOFF_MAX_SECS / 2 {
            BACKOFF_MAX_SECS
        } else {
            2 * self.delay_secs
        };
        let delay = if doubled > BACKOFF_MAX_SECS {
            BACKOFF_MAX_SECS
        } else {
            doubled
        };
        WatchStep::Sleep {
            secs: self.delay_secs,
            then: Backoff { attempt: self.attempt + 1, delay_secs: delay },
        }
    }

    /// After a subscription stream ended having lived `lived_millis`: a
    /// healthy one (at least [`HEALTHY_AFTER_MILLIS`]) starts over at once
    /// with a fresh backoff; a short-lived one waits like a failure.
    pub fn after_stream_end(&self, lived_millis: u128) -> (r: WatchStep)
        requires
            self.attempt < u32::MAX,
        ensures
            lived_millis >= HEALTHY_AFTER_MILLIS ==> r == WatchStep::Resubscribe(
                Backoff { attempt: 0, delay_secs: 1 },
            ),
            lived_millis < HEALTHY_AFTER_MILLIS ==> r == (WatchStep::Sleep {
                secs: self.delay_secs,
                then: self.spec_next(),
            }),
    {
        if lived_millis >= HEALTHY_AFTER_MILLIS {
            WatchStep::Resubscribe(Backoff::new())
        } else {
            self.retry()
        }
    }
}

impl Backoff {
    /// After the subscription stream ended, having lived `lived_millis`: the
    /// next step, and nothing to announce. The watch goes on with a new
    /// subscription, so it has not ended for good and is not reported as
    /// stopped; the next subscription's `Resubscribed` reports the recovery.
    pub fn on_stream_end(&self, lived_millis: u128) -> (r: (WatchStep, Option<Event>))
        requires
            self.attempt < u32::MAX,
        ensures
            lived_millis >= HEALTHY_AFTER_MILLIS ==> r.0 == WatchStep::Resubscribe(
                Backoff { attempt: 0, delay_secs: 1 },
            ),
            lived_millis < HEALTHY_AFTER_MILLIS ==> r.0 == (WatchStep::Sleep {
                secs: self.delay_secs,
                then: self.spec_next(),
            }),
            r.1 is None,
    {
        (self.after_stream_end(lived_millis), None)
    }

    /// After a subscribe call failed with `error`: wait as [`Self::retry`]
    /// says, and announce that the watch failed to start.
    pub fn on_subscribe_error(&self, chain: &String, target: &Target, error: &str) -> (r: (
        WatchStep,
        Option<Event>,
    ))
        requires
            self.attempt < u32::MAX,
        ensures
            r.0 == (WatchStep::Sleep { secs: self.delay_secs, then: self.spec_next() }),
            r.1 matches Some(e) && (e matches Event::WatchStopped { chain: c, source, reason }
                && c@ == chain@ && source@ == target.name@ && reason@ == "subscribe failed: "@
                + error@),
    {
        (self.retry(), Some(subscribe_failed(chain, target, error)))
    }
}

/// Every reconnect decision keeps the delay within one second and
/// [`BACKOFF_MAX_SECS`], never waits longer than that cap, and starts the next
/// attempt no sooner than the current delay.
pub proof fn lemma_backoff_bounded(b: Backoff)
    requires
        b.wf(),
    ensures
        b.spec_next().wf(),
        b.spec_next().delay_secs >= b.delay_secs,
        b.delay_secs <= BACKOFF_MAX_SECS,
        (Backoff { attempt: 0, delay_secs: 1 }).wf(),
{
}

/// The reconnect state after `n` waits in a row since [`Backoff::new`]
/// (failed subscribes, or subscriptions that ended before turning healthy).
pub open spec fn backoff_after(n: nat) -> Backoff
    decreases n,
{
    if n == 0 {
        Backoff { attempt: 0, delay_secs: 1 }
    } else {
        backoff_after((n - 1) as nat).spec_next()
    }
}

/// The waits double: the `n`-th wait in a row lasts `2^n` seconds, capped at
/// [`BACKOFF_MAX_SECS`] (1, 2, 4, 8, 16, 30, 30, …), and the attempt
/// counter counts the waits.
pub proof fn lemma_backoff_doubles(n: nat)
    requires
        n <= u32::MAX,
    ensures
        backoff_after(n).attempt == n,
        backoff_after(n).delay_secs == if pow2(n) > BACKOFF_MAX_SECS {
            BACKOFF_MAX_SECS as nat
        } else {
            pow2(n)
        },
    decreases n,
{
    if n == 0 {
        lemma2_to64();
    } else {
        lemma_backoff_doubles((n - 1) as nat);
        lemma_pow2_unfold(n);
    }
}

/// A target was not watched or stopped being watched, with the reason.
pub fn watch_stopped(chain: &String, target: &Target, reason: String) -> (e: Event)
    ensures
        e matches Event::WatchStopped { chain: c, source, reason: r } && c@ == chain@ && source@
            == target.name@ && r@ == reason@,
{
    Event::WatchStopped {
        chain: owned(chain.as_str()),
        source: owned(target.name.as_str()),
        reason,
    }
}

/// The address a target watches, or the `WatchStopped` event explaining why
/// its configured address does not parse.
pub fn target_address(chain: &String, target: &Target) -> (r: Result<Address, Event>)
    ensures
        r is Ok <==> is_address_text(target.address@),
        r matches Ok(a) ==> a.bytes@ == hex_bytes(hex_body(target.address@)),
        r matches Err(e) ==> (e matches Event::WatchStopped { chain: c, source, reason } && c@
            == chain@ && source@ == target.name@ && reason@ == "invalid address: "@
            + address_parse_error(target.address@)),
{
    match Address::parse(target.address.as_str()) {
        Ok(a) => Ok(a),
        Err(msg) => {
            let reason = concat2("invalid address: ", msg.as_str());
            Err(watch_stopped(chain, target, reason))
        },
    }
}

/// The `WatchStopped` event for a subscribe call that failed with `error`.
pub fn subscribe_failed(chain: &String, target: &Target, error: &str) -> (e: Event)
    ensures
        e matches Event::WatchStopped { chain: c, source, reason } && c@ == chain@ && source@
            == target.name@ && reason@ == "subscribe failed: "@ + error@,
{
    watch_stopped(chain, target, concat2("subscribe failed: ", error))
}

/// A matching log becomes a decoded event to enrich, or — when it does not
/// fit the configured ABI — an `Undecoded` event carrying its first topic.
pub fn classify_log(chain: &String, target: &Target, log: &LogRecord) -> (r: Result<
    DecodedEvent,
    Event,
>)
    ensures
        decodes(*log) <==> r is Ok,
        r matches Ok(d) ==> decoded_from(d, *log),
        r matches Err(e) ==> (e matches Event::Undecoded { chain: c, source, topic0 } && c@
            == chain@ && source@ == target.name@ && opt_text(topic0) == if log.topics@.len()
            == 0 {
            None::<Seq<char>>
        } else {
            Some(prefixed_hex(log.topics@[0].bytes@))
        }),
{
    match decode(log) {
        Some(d) => Ok(d),
        None => {
            let topic0 = match log.topic0() {
                Some(t) => Some(t.to_hex_string()),
                None => None,
            };
            Err(
                Event::Undecoded {
                    chain: owned(chain.as_str()),
                    source: owned(target.name.as_str()),
                    topic0,
                },
            )
        },
    }
}

/// Age of the last log at `now_secs`: `None` until a log was seen
/// (`last_secs == 0`), otherwise the elapsed seconds, never negative.
pub open spec fn log_age(last_secs: u64, now_secs: u64) -> Option<u64> {
    if last_secs == 0 {
        None
    } else if now_secs >= last_secs {
        Some((now_secs - last_secs) as u64)
    } else {
        Some(0)
    }
}

/// The liveness tick for a chain.
pub fn alive(chain: &String, last_secs: u64, now_secs: u64) -> (e: Event)
    ensures
        e matches Event::Alive { chain: c, last_log_age_secs } && c@ == chain@ && last_log_age_secs
            == log_age(last_secs, now_secs),
{
    let age = if last_secs != 0 {
        Some(now_secs.saturating_sub(last_secs))
    } else {
        None
    };
    Event::Alive { chain: owned(chain.as_str()), last_log_age_secs: age }
}

} // verus!
