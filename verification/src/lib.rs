//! Verified core of a launch and graduation watcher for EVM chains.

pub mod text;
pub mod primitives;
pub mod chain;
pub mod config;
pub mod bus;
pub mod events;
pub mod stages;
pub mod consumer;
pub mod contracts;
pub mod event;
pub mod listener;
pub mod logger;
pub mod banner;
