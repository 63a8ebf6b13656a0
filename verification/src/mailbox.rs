//! The handle through which signals reach a connection: the sending half of
//! a `tokio` broadcast channel, whose receiving half the connection's send
//! pump drains.

use vstd::prelude::*;
use crate::signal::Signal;

verus! {

/// `tokio::sync::broadcast::Sender`: the sending half of a broadcast
/// channel. The relay stores it and sends through it; it never looks inside.
#[verifier::external_type_specification]
#[verifier::external_body]
#[verifier::reject_recursive_types(T)]
pub struct ExSender<T>(tokio::sync::broadcast::Sender<T>);

/// Why a handle did not take a signal.
#[derive(Clone, Copy, Debug, PartialEq, Eq, Structural)]
pub enum MailboxError {
    /// The receiving side is gone.
    Closed,
    /// The receiving side did not take the signal in time.
    Timeout,
}

/// `tokio::sync::broadcast::Sender::send`, which queues the signal for the
/// receivers of the channel and fails only when none is left. The result
/// says whether the signal was queued; it depends on what the other side of
/// the channel did, so nothing is promised of it.
#[verifier::external_body]
pub(crate) fn send(handle: &tokio::sync::broadcast::Sender<Signal>, signal: Signal) -> (queued:
    bool) {
    handle.send(signal).is_ok()
}

} // verus!
