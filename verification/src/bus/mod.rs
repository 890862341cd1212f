//! The internal event bus's message: an [`Envelope`] wrapping a typed
//! [`Event`] with routing metadata.

pub mod num;

use vstd::prelude::*;
pub use crate::events::Event;
use crate::events::{event_id_text, level_of, subsystem_text, topic_text, trace_text};
use crate::text::opt_text;

verus! {

/// Schema version of the envelope and payloads. Bumped on a breaking change.
pub const SCHEMA: u32 = 1;

/// Severity, for stages that rank or colour events.
#[derive(Clone, Copy, Debug, PartialEq, Eq, Structural)]
pub enum Level {
    Info,
    Warn,
    Error,
}

/// One bus message: routing metadata plus the typed payload.
#[derive(Clone, Debug)]
pub struct Envelope {
    pub schema: u32,
    pub ts: String,
    pub subsystem: &'static str,
    pub topic: String,
    pub level: Level,
    pub trace_id: Option<String>,
    pub event_id: Option<String>,
    pub caused_by: Option<String>,
    pub payload: Event,
}

impl Envelope {
    /// Wraps `payload` emitted at wall-clock time `ts`; `caused_by` names the
    /// event it was derived from, if any. Every routing field is computed
    /// from the payload.
    pub fn wrap(payload: Event, caused_by: Option<String>, ts: String) -> (r: Envelope)
        ensures
            r.schema == SCHEMA,
            r.ts == ts,
            r.subsystem@ == subsystem_text(payload),
            r.topic@ == topic_text(payload),
            r.level == level_of(payload),
            opt_text(r.trace_id) == trace_text(payload),
            opt_text(r.event_id) == event_id_text(payload),
            r.caused_by == caused_by,
            r.payload == payload,
    {
        let subsystem = payload.subsystem();
        let topic = payload.topic();
        let level = payload.level();
        let trace_id = payload.trace_id();
        let event_id = payload.event_id();
        Envelope {
            schema: SCHEMA,
            ts,
            subsystem,
            topic,
            level,
            trace_id,
            event_id,
            caused_by,
            payload,
        }
    }
}

} // verus!
