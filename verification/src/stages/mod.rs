//! Bus stages' decisions: the executor's gate, the logger's rendering and
//! the listener's subscription bookkeeping.

pub mod executor;
pub mod listener_sub;
pub mod logger;
