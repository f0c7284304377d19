//! A minimal TCP command server, as a verified core.
//!
//! The crate holds the decisions of the server: how the command line becomes
//! a configuration, what a client session answers to each line it receives,
//! and how each of the three serving strategies reacts to what happens on the
//! listening socket. Sockets, threads and child programs belong to the
//! program that drives these state machines.

pub mod config;
pub mod server;
pub mod session;
pub mod text;

pub use config::{Config, Mode};
pub use server::{run, Server, ServerAction, ServerError, ServerEvent, ServerPhase};
pub use session::{handle_client, Session, SessionAction, SessionEvent, SessionState, Utility};
