//! Lifecycle supervision for a fleet of reward nodes.
//!
//! Each node of each account is registered with the remote service, gets a
//! session, and is kept alive by heartbeats; after a failure its lifecycle
//! starts over. This crate holds the decisions: which request comes next,
//! who may work on a node, when a node is restarted, what is closed at
//! shutdown. Sending requests and waiting is left to the caller.

pub mod client;
pub mod fleet;
pub mod heartbeat;
pub mod network;
pub mod registry;
pub mod supervisor;
pub mod text;

pub use client::{create_client, Config};
pub use network::what_my_addr;
