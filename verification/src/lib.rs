//! A WebRTC signaling relay: peers register under a unique name and exchange
//! offers, answers and ICE candidates through the relay, which routes each
//! signal to the peer it is addressed to.
//!
//! The crate holds the wire protocol of the signals ([`signal`]), the
//! registry of connected names ([`registry`]), the router on top of it
//! ([`signal_router`]), and the state machine of one connection
//! ([`signal_socket`]). Every function states what it computes in terms of
//! the `view` of its arguments.
//!
//! Three modules hold the calls into other crates, with what is taken on
//! trust of each: [`json`] for `serde_json`, [`mailbox`] for the channels of
//! `tokio`, and [`random`] for `rand` and `uuid`. [`text`] does the same for
//! two functions of std.

pub mod error;
pub mod json;
pub mod mailbox;
pub mod name_generator;
pub mod random;
pub mod registry;
pub mod server;
pub mod signal;
pub mod signal_router;
pub mod signal_socket;
pub mod text;

pub use crate::error::Error;
pub use crate::signal::Signal;
pub use crate::signal_router::{ExitMessage, JoinMessage, SignalMessage, SignalRouter};
pub use crate::signal_socket::SignalSocket;
