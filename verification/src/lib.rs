//! Verified core of a SOCKS5 proxy: protocol constants, method negotiation,
//! the RFC 1929 username/password subnegotiation, CONNECT request parsing,
//! and the per-chunk relay and inspection logic of the tunnel.
//!
//! All wire I/O (sockets, the accept loop, the concurrent forwarding tasks)
//! lives outside this crate; the functions here work on plain byte buffers
//! and state exactly which bytes go back on the wire.

pub mod address_type;
pub mod auth;
pub mod authentication;
pub mod command;
pub mod config;
pub mod error;
pub mod general;
pub mod handshake;
pub mod modules;
pub mod request;
pub mod text;
pub mod tunnel;
