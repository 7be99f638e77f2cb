//! A single-node, in-memory key-value store with a line-oriented text
//! protocol: the map, the command decoder, the executor, the response
//! encoder and the per-connection session state machine.

pub mod node;
pub mod protocol;
pub mod response;
pub mod executor;
pub mod session;
pub mod laws;
