//! The listener's console messages, one line per notable listener event.

use vstd::prelude::*;
use crate::event::listener::{Event, ListenerEvent};
use crate::text::{concat2, concat3};

verus! {

/// Verbosity levels.
#[derive(Clone, Copy, Debug, PartialEq, Eq, Structural)]
pub enum Level {
    Error,
    Warn,
    Info,
    Debug,
    Trace,
}

/// The line printed for an event, if any.
pub open spec fn message_text(e: Event) -> Option<Seq<char>> {
    match e {
        Event::Listener(l) => match l {
            ListenerEvent::Ready => Some("[INFO] Watchlist loaded, listener is ready."@),
            ListenerEvent::ChainUp { chain } => Some("[INFO] Chain started listening: "@ + chain@),
            ListenerEvent::ChainDown { chain, err } => Some(
                "[ERROR] Chain failed: "@ + chain@ + " - "@ + err@,
            ),
            ListenerEvent::ListeningLaunches { chain } => Some(
                "[INFO] Listening to launches on chain: "@ + chain@,
            ),
            ListenerEvent::ListeningGraduations { chain } => Some(
                "[INFO] Listening to graduations on chain: "@ + chain@,
            ),
            _ => None,
        },
    }
}

/// The line printed for an event, if any.
pub fn message(event: &Event) -> (r: Option<String>)
    ensures
        crate::text::opt_text(r) == message_text(*event),
{
    match event {
        Event::Listener(l) => match l {
            ListenerEvent::Ready => Some(crate::text::owned("[INFO] Watchlist loaded, listener is ready.")),
            ListenerEvent::ChainUp { chain } => Some(
                concat2("[INFO] Chain started listening: ", chain.as_str()),
            ),
            ListenerEvent::ChainDown { chain, err } => {
                let mut s = concat3("[ERROR] Chain failed: ", chain.as_str(), " - ");
                s.append(err.as_str());
                Some(s)
            },
            ListenerEvent::ListeningLaunches { chain } => Some(
                concat2("[INFO] Listening to launches on chain: ", chain.as_str()),
            ),
            ListenerEvent::ListeningGraduations { chain } => Some(
                concat2("[INFO] Listening to graduations on chain: ", chain.as_str()),
            ),
            _ => None,
        },
    }
}

} // verus!
