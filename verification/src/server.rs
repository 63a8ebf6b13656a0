//! What the HTTP side of the relay shares with the signaling core.

pub mod error;
pub mod user;
