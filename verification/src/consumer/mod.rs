//! Rendering of bus events for a human reader.

pub mod logger;
pub mod style;
