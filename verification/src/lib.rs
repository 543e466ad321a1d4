//! Named-profile launcher for interactive remote shell sessions.
//!
//! The crate holds the decisions of the launcher: how a stored profile becomes
//! an authentication attempt, how the session engine reacts to each outcome of
//! the transport, the terminal and the two data streams, and how the profile
//! store is edited. Everything that touches the network, the terminal or the
//! disk is left to the caller, which performs the actions the engine asks for
//! and reports what happened.

pub mod address;
pub mod cmd;
pub mod common;
pub mod credential;
pub mod endec;
pub mod error;
pub mod geometry;
pub mod model;
pub mod prompt;
pub mod session;
pub mod ssh_config;
pub mod terminal;
pub mod text;
pub mod trace;
