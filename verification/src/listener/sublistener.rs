//! One chain's listener: what it announces as it starts.

use vstd::prelude::*;
use crate::event::listener::ListenerEvent;
use crate::listener::watchlist::Chain;
use crate::text::owned;

verus! {

/// The number of announcements a chain's listener makes on start: the chain
/// coming up, then one per watcher its configuration turns on.
pub open spec fn startup_len(c: Chain) -> int {
    1 + (if c.config.listen_launch { 1int } else { 0 }) + (if c.config.listen_graduation {
        1int
    } else {
        0
    })
}

/// What the listener of chain `name` announces as it starts, in order:
/// `ChainUp`, then `ListeningLaunches` when launches are watched, then
/// `ListeningGraduations` when graduations are.
pub fn startup_events(name: &String, chain: &Chain) -> (r: Vec<ListenerEvent>)
    ensures
        r@.len() == startup_len(*chain),
        r@[0] matches ListenerEvent::ChainUp { chain: c } && c@ == name@,
        chain.config.listen_launch ==> (r@[1] matches ListenerEvent::ListeningLaunches {
            chain: c,
        } && c@ == name@),
        chain.config.listen_graduation ==> (r@[r@.len() - 1] matches ListenerEvent::ListeningGraduations {
            chain: c,
        } && c@ == name@),
{
    let mut out: Vec<ListenerEvent> = Vec::new();
    out.push(ListenerEvent::ChainUp { chain: owned(name.as_str()) });
    if chain.config.listen_launch {
        out.push(ListenerEvent::ListeningLaunches { chain: owned(name.as_str()) });
    }
    if chain.config.listen_graduation {
        out.push(ListenerEvent::ListeningGraduations { chain: owned(name.as_str()) });
    }
    out
}

} // verus!
