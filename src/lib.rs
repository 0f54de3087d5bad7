//! Driving a worker through a duplex message channel: a guarded state with a
//! sticky shutdown flag, a first-in first-out queue on it, a channel endpoint
//! whose pumps drain and fill two such queues, and a tracker that gives each
//! issued command an owning handle whose result is taken at most once.
//!
//! Every type here is the state of one party, changed by verified steps; the
//! threads, locks and transport that share these states between parties live
//! with the program that uses the library.

pub mod client_state;
pub mod command;
pub mod endpoint;
pub mod logging;
pub mod messages;
pub mod protocol;
pub mod queue;
pub mod signal;
