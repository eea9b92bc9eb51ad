//! The decisions of a chat server's network service.
//!
//! The crate holds what the service decides and computes; sockets, threads, locks
//! and the log file belong to the program around it. That program performs one
//! action at a time and hands the outcome back:
//!
//! - [`net_service`] starts the service, accepts connections and refuses banned
//!   addresses;
//! - [`session`] serves one user's TCP connection from its first byte to the closing
//!   line in the log;
//! - [`udp_service`] brings up a user's UDP socket and measures the first ping.
//!
//! Underneath lie the list of bans ([`bans`]), the list of users ([`users`]), the
//! clock ([`time`]), the packet size field ([`wire`]) and the texts ([`text`]).
pub mod address;
pub mod bans;
pub mod net_service;
pub mod output;
pub mod service_laws;
pub mod session;
pub mod session_laws;
pub mod text;
pub mod time;
pub mod udp_service;
pub mod users;
pub mod wire;
