//! Decision logic of a launcher that runs a command under a telemetry
//! transaction: how the command is labelled, which trace identifier it
//! carries, how the transaction ends, and what the launcher does next.

pub mod config;
pub mod label;
pub mod launcher;
pub mod lifecycle;
pub mod path;
pub mod protocol;
pub mod runs;
pub mod session;
pub mod trace;
