//! Events of the listener and its per-chain sub-listeners, wrapped in a root
//! [`Event`] that other subsystems extend with their own variant.

use vstd::prelude::*;

verus! {

/// What every on-chain detection carries.
#[derive(Clone, Debug)]
pub struct Detection {
    pub chain: String,
    pub tx_hash: String,
    pub block_number: u64,
    /// Address of the deployed or concerned contract.
    pub address: String,
    pub deployer: String,
    pub method_id: String,
}

/// Root of everything sent on the channel; one variant per subsystem.
#[derive(Clone, Debug)]
pub enum Event {
    Listener(ListenerEvent),
}

/// Events of the listener and its sub-listeners.
#[derive(Clone, Debug)]
pub enum ListenerEvent {
    /// Every sub-listener has been spawned.
    Ready,
    ListeningLaunches { chain: String },
    ListeningGraduations { chain: String },
    /// A chain started listening.
    ChainUp { chain: String },
    /// A chain stopped or failed.
    ChainDown { chain: String, err: String },
    /// A new token was launched.
    Launch(Detection),
    /// A token graduated.
    Graduation(Detection),
}

impl Event {
    /// Shortcut for consumers that only care about the listener.
    pub fn as_listener(&self) -> (r: Option<&ListenerEvent>)
        ensures
            match *self {
                Event::Listener(e) => r == Some(&e),
            },
    {
        match self {
            Event::Listener(e) => Some(e),
        }
    }
}

} // verus!
