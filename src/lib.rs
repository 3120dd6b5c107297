//! The core of a telemetry relay daemon: the framing of items on a local
//! connection, the bounded relay queue with its drop-on-full policy, each
//! connection's receive loop, the daemon's lifecycle, and its settings.

pub mod config;
pub mod connection;
pub mod frame;
pub mod lifecycle;
pub mod queue;
