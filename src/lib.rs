//! Roxi: the control plane of a peer-to-peer WireGuard network.
//!
//! The library holds the wire codec, the address and identity types, the
//! rendezvous session table and request dispatch, the gateway handshake and
//! the joining peer's state machine. Sockets, timers and configuration files
//! are driven from outside; every decision taken on them is made here.

pub mod error;
pub mod text;
pub mod address;
pub mod message;
pub mod table;
pub mod auth;
pub mod client_config;
pub mod server_config;
pub mod session;
pub mod rendezvous;
pub mod wireguard;
pub mod gateway;
pub mod client;
pub mod files;
pub mod wgfile;
pub mod parse;
