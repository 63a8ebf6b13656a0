//! The router: joining, leaving, and finding the handle that a signal is to
//! be delivered to.

use vstd::prelude::*;
use vstd::std_specs::convert::FromSpecImpl;
use crate::error::{Error, ErrorView};
use crate::mailbox::{send, MailboxError};
use crate::random::uuid_name;
use crate::registry::{
    after_join, after_leave, all_registered, distinct, handle_of, names_of, registered, Registry,
    Roster,
};
use crate::signal::{Signal, SignalView};

verus! {

/// A signal handed to the router for delivery.
pub struct SignalMessage(pub Signal);

/// The request of a connection to be registered under a name.
pub struct JoinMessage<H> {
    pub user_name: String,
    pub signal_recipient: H,
}

/// The request to remove a name from the registry.
pub struct ExitMessage(pub String);

impl From<Signal> for SignalMessage {
    fn from(signal: Signal) -> (message: Self) {
        SignalMessage(signal)
    }
}

impl FromSpecImpl<Signal> for SignalMessage {
    open spec fn obeys_from_spec() -> bool {
        true
    }

    open spec fn from_spec(signal: Signal) -> Self {
        SignalMessage(signal)
    }
}

impl From<String> for ExitMessage {
    fn from(name: String) -> (message: Self) {
        ExitMessage(name)
    }
}

impl FromSpecImpl<String> for ExitMessage {
    open spec fn obeys_from_spec() -> bool {
        true
    }

    open spec fn from_spec(name: String) -> Self {
        ExitMessage(name)
    }
}

impl<H> JoinMessage<H> {
    pub fn new(user_name: String, signal_recipient: H) -> (message: Self)
        ensures
            message.user_name == user_name,
            message.signal_recipient == signal_recipient,
    {
        JoinMessage { user_name, signal_recipient }
    }
}

/// What the router does with a signal: where it goes, or why it goes
/// nowhere.
pub enum Route<H> {
    /// The signal is addressed to a registered peer: deliver it to this
    /// handle.
    Deliver(H),
    /// The signal is addressed to nobody: there is nothing to do.
    Ignore,
    /// The signal cannot be delivered.
    Reject(ErrorView),
}

/// Where a signal goes in a roster. An offer, an answer or an ICE candidate
/// goes to the handle registered under its target, and is rejected with
/// `TargetNotFound` if nobody is. The signals that only the relay sends are
/// accepted and go nowhere.
pub open spec fn route_of<H>(roster: Roster<H>, signal: SignalView) -> Route<H> {
    match signal.target() {
        None => Route::Ignore,
        Some(target) => if registered(roster, target) {
            Route::Deliver(handle_of(roster, target))
        } else {
            Route::Reject(ErrorView::TargetNotFound(target))
        },
    }
}

/// What a delivery attempt comes to: success, or the error for the reason
/// the handle gave.
pub open spec fn delivery_result(outcome: Result<(), MailboxError>) -> Result<(), ErrorView> {
    match outcome {
        Ok(()) => Ok(()),
        Err(MailboxError::Closed) => Err(ErrorView::ConnectionClosed),
        Err(MailboxError::Timeout) => Err(ErrorView::ConnectionTimeout),
    }
}

/// The error for a handle of a target that did not take a signal.
pub fn into_target_related_error<T>(mailbox_error: MailboxError) -> (r: Result<T, Error>)
    ensures
        r is Err,
        r->Err_0@ == (match mailbox_error {
            MailboxError::Closed => ErrorView::ConnectionClosed,
            MailboxError::Timeout => ErrorView::ConnectionTimeout,
        }),
{
    Err(
        match mailbox_error {
            MailboxError::Closed => Error::ConnectionClosed,
            MailboxError::Timeout => Error::ConnectionTimeout,
        },
    )
}

/// The router, which owns the registry.
pub struct SignalRouter<H> {
    sockets: Registry<H>,
}

impl<H> View for SignalRouter<H> {
    type V = Roster<H>;

    closed spec fn view(&self) -> Roster<H> {
        self.sockets@
    }
}

impl<H> Default for SignalRouter<H> {
    fn default() -> (router: Self)
        ensures
            router@ == Seq::<(Seq<char>, H)>::empty(),
    {
        SignalRouter { sockets: Registry::new() }
    }
}

impl<H> SignalRouter<H> {
    /// A router with nobody registered.
    pub fn new() -> (router: Self)
        ensures
            router@ == Seq::<(Seq<char>, H)>::empty(),
    {
        SignalRouter { sockets: Registry::new() }
    }

    /// The handle registered under the name.
    pub fn target(&self, target_name: &str) -> (r: Option<&H>)
        ensures
            match r {
                Some(handle) => registered(self@, target_name@) && *handle == handle_of(
                    self@,
                    target_name@,
                ),
                None => !registered(self@, target_name@),
            },
    {
        self.sockets.resolve(target_name)
    }

    /// Whether the name is registered.
    pub fn contains(&self, name: &str) -> (r: bool)
        ensures
            r == registered(self@, name@),
    {
        self.sockets.contains(name)
    }

    /// The candidate, if it is free to join under: `None` means that the
    /// name is registered.
    pub fn accept_name(&self, candidate: String) -> (r: Option<String>)
        ensures
            match r {
                Some(name) => name@ == candidate@ && !registered(self@, candidate@),
                None => registered(self@, candidate@),
            },
    {
        if self.sockets.contains(candidate.as_str()) {
            None
        } else {
            Some(candidate)
        }
    }

    /// A random name that nobody is registered under: random UUIDs are
    /// drawn, at most `attempts` of them, until one is free. `None` means
    /// that `attempts` names were drawn and every one of them was taken; so
    /// while nobody is registered, the first draw is the name.
    pub fn fresh_name(&self, attempts: usize) -> (r: Option<String>)
        ensures
            match r {
                Some(name) => attempts > 0 && !registered(self@, name@),
                None => exists|drawn: Seq<Seq<char>>|
                    drawn.len() == attempts && #[trigger] all_registered(self@, drawn),
            },
    {
        let ghost mut drawn: Seq<Seq<char>> = Seq::empty();
        let mut left: usize = attempts;
        while left > 0
            invariant
                left <= attempts,
                drawn.len() == attempts - left,
                all_registered(self@, drawn),
            decreases left,
        {
            let candidate = uuid_name();
            proof {
                drawn = drawn.push(candidate@);
            }
            match self.accept_name(candidate) {
                Some(name) => {
                    return Some(name);
                },
                None => {},
            }
            left = left - 1;
        }
        None
    }

    /// Registers the connection under its name. A name that is registered
    /// already is refused with `UserAlreadyJoined`, and nothing changes.
    pub fn handle_join(&mut self, message: JoinMessage<H>) -> (r: Result<(), Error>)
        ensures
            distinct(final(self)@),
            final(self)@ == after_join(
                old(self)@,
                message.user_name@,
                message.signal_recipient,
            ),
            match r {
                Ok(()) => !registered(old(self)@, message.user_name@),
                Err(error) => registered(old(self)@, message.user_name@) && error@
                    == ErrorView::UserAlreadyJoined(message.user_name@),
            },
    {
        let user_name = message.user_name.clone();
        match self.sockets.join(message.user_name, message.signal_recipient) {
            Ok(()) => Ok(()),
            Err(_) => Err(Error::UserAlreadyJoined(user_name)),
        }
    }

    /// Removes the name from the registry, whether or not it is there.
    pub fn handle_exit(&mut self, message: ExitMessage)
        ensures
            distinct(final(self)@),
            final(self)@ == after_leave(old(self)@, message.0@),
            !registered(final(self)@, message.0@),
    {
        self.sockets.leave(message.0.as_str());
    }

    /// Where the signal goes: the handle of its target, nowhere, or the
    /// reason why it cannot be delivered.
    pub fn resolve(&self, signal: &Signal) -> (r: Result<Option<&H>, Error>)
        ensures
            match r {
                Ok(Some(handle)) => route_of(self@, signal@) == Route::Deliver(*handle),
                Ok(None) => route_of(self@, signal@) == Route::<H>::Ignore,
                Err(error) => route_of(self@, signal@) == Route::<H>::Reject(error@),
            },
    {
        match signal.target() {
            None => Ok(None),
            Some(target) => match self.sockets.resolve(target.as_str()) {
                Some(handle) => Ok(Some(handle)),
                None => Err(Error::TargetNotFound(target.clone())),
            },
        }
    }

    /// The number of registered names. No name is counted twice, as none
    /// is registered twice.
    pub fn len(&self) -> (n: usize)
        ensures
            n == self@.len(),
            distinct(self@),
    {
        self.sockets.len()
    }

    /// The registered names, in the order of joining.
    pub fn snapshot_names(&self) -> (names: Vec<String>)
        ensures
            crate::signal::texts(names@) == names_of(self@),
    {
        self.sockets.snapshot_names()
    }

    /// The signal that lists the registered names, in the order of joining.
    pub fn connected_list(&self) -> (signal: Signal)
        ensures
            signal@ == SignalView::ConnectedList(names_of(self@)),
    {
        Signal::ConnectedList(self.sockets.snapshot_names())
    }
}

/// What `route` returns once the delivery was tried with the given outcome.
pub fn delivered(outcome: Result<(), MailboxError>) -> (r: Result<(), Error>)
    ensures
        crate::text::result_view(r) == delivery_result(outcome),
{
    match outcome {
        Ok(()) => Ok(()),
        Err(mailbox_error) => into_target_related_error(mailbox_error),
    }
}

impl SignalRouter<tokio::sync::broadcast::Sender<Signal>> {
    /// Sends the list of the registered names to every registered peer,
    /// through each handle once, in the order of joining. Returns how many
    /// handles took it.
    pub fn announce(&self) -> (queued: usize)
        ensures
            queued <= self@.len(),
    {
        let mut queued: usize = 0;
        let mut i: usize = 0;
        while i < self.sockets.len()
            invariant
                queued <= i <= self.sockets@.len(),
            decreases self.sockets@.len() - i,
        {
            match self.sockets.entry(i) {
                Some((_, handle)) => {
                    if send(handle, self.connected_list()) {
                        queued = queued + 1;
                    }
                },
                None => {},
            }
            i = i + 1;
        }
        queued
    }

    /// Delivers the signal to the peer it is addressed to.
    ///
    /// A signal addressed to nobody is accepted and nothing is sent. A signal
    /// whose target is not registered is refused with `TargetNotFound`. For a
    /// registered target the signal is sent through its handle, once; what
    /// comes back then depends on the channel: success, or
    /// `ConnectionClosed` when the handle did not take the signal.
    pub fn route(&self, message: SignalMessage) -> (r: Result<(), Error>)
        ensures
            match route_of(self@, message.0@) {
                Route::Ignore => r is Ok,
                Route::Reject(error) => r is Err && r->Err_0@ == error,
                Route::Deliver(_) => r is Ok || (r is Err && r->Err_0@
                    == ErrorView::ConnectionClosed),
            },
    {
        match self.resolve(&message.0) {
            Err(error) => Err(error),
            Ok(None) => Ok(()),
            Ok(Some(handle)) => {
                if send(handle, message.0) {
                    delivered(Ok(()))
                } else {
                    delivered(Err(MailboxError::Closed))
                }
            },
        }
    }
}

} // verus!
