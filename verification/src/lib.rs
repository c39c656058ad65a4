//! A transparent tunnel core: plaintext connections accepted on a local port
//! are relayed to one fixed remote endpoint over an encrypted transport.
//!
//! The crate holds the decisions of the tunnel: which local port to take,
//! which name the remote certificate is checked against, how one session
//! moves from connecting to relaying to closed, and what the accept loop does
//! with each outcome. The sockets themselves belong to the caller.

pub mod acceptor;
pub mod error;
pub mod hostname;
pub mod listener;
pub mod session;
pub mod target;
