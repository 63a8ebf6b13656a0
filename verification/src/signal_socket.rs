//! One connection: the name it goes by, the state it is in, and what it does
//! with what arrives.
//!
//! A connection starts `Connecting`, is `Joined` once its name is
//! registered, is `Closing` once either direction of the transport gave up,
//! and `Closed` once its name is released. No state is entered twice.

use vstd::prelude::*;
use vstd::std_specs::convert::FromSpecImpl;
use crate::error::{Error, ErrorView};
use crate::mailbox::{send, MailboxError};
use crate::registry::{after_join, after_leave, handle_of, registered, Roster};
use crate::signal::deserialize::{decoded, signal_of};
use crate::signal::frame::{lookup, parsed, Entries, FieldView};
use crate::signal::serialize::encoded;
use crate::signal::{Signal, SignalView};
use crate::signal_router::{
    delivery_result, route_of, ExitMessage, JoinMessage, Route, SignalRouter,
};
use crate::text::{option_view, owned, wrap};

verus! {

/// Where a connection is in its life.
#[derive(Clone, Copy, Debug, PartialEq, Eq, Structural)]
pub enum SessionState {
    Connecting,
    Joined,
    Closing,
    Closed,
}

impl SessionState {
    /// How far a state is along the life of a connection.
    pub open spec fn rank(self) -> int {
        match self {
            SessionState::Connecting => 0,
            SessionState::Joined => 1,
            SessionState::Closing => 2,
            SessionState::Closed => 3,
        }
    }

    /// Whether a connection in this state can come to be in `later`: a
    /// state is never left for an earlier one.
    pub open spec fn reaches(self, later: SessionState) -> bool {
        self.rank() <= later.rank()
    }
}

/// What the transport handed to the receive pump.
#[derive(Clone, Debug, PartialEq)]
pub enum Inbound {
    /// A text frame.
    Text(String),
    /// A binary frame. The protocol has none.
    Binary,
    /// The peer asked to close.
    Close,
    /// A frame that carries no signal, such as a ping.
    Other,
    /// The transport failed, or the peer is gone.
    Failed,
}

/// The mathematical value of an [`Inbound`].
pub enum InboundView {
    Text(Seq<char>),
    Binary,
    Close,
    Other,
    Failed,
}

impl View for Inbound {
    type V = InboundView;

    open spec fn view(&self) -> InboundView {
        match self {
            Inbound::Text(text) => InboundView::Text(text@),
            Inbound::Binary => InboundView::Binary,
            Inbound::Close => InboundView::Close,
            Inbound::Other => InboundView::Other,
            Inbound::Failed => InboundView::Failed,
        }
    }
}

/// What the receive pump is to do next.
pub enum Reaction<'a, H> {
    /// Nothing; wait for the next frame.
    Idle,
    /// Hand the signal to this handle, which is the target's.
    Forward(&'a H, Signal),
    /// Hand the signal to the connection's own send path.
    Reply(Signal),
    /// Stop receiving.
    Stop,
}

/// The mathematical value of a [`Reaction`].
pub enum ReactionView<H> {
    Idle,
    Forward(H, SignalView),
    Reply(SignalView),
    Stop,
}

impl<'a, H> View for Reaction<'a, H> {
    type V = ReactionView<H>;

    open spec fn view(&self) -> ReactionView<H> {
        match self {
            Reaction::Idle => ReactionView::Idle,
            Reaction::Forward(handle, signal) => ReactionView::Forward(**handle, signal@),
            Reaction::Reply(signal) => ReactionView::Reply(signal@),
            Reaction::Stop => ReactionView::Stop,
        }
    }
}

/// The mathematical value of a [`SignalSocket`].
pub struct SessionView {
    pub user_name: Seq<char>,
    pub state: SessionState,
}

/// The state after something arrived: a joined connection starts closing
/// when the peer asks to close or the transport fails, and nothing else
/// changes the state.
pub open spec fn state_after(state: SessionState, inbound: InboundView) -> SessionState {
    if state == SessionState::Joined && (inbound is Close || inbound is Failed) {
        SessionState::Closing
    } else {
        state
    }
}

/// What a signal read from the peer leads to: it is forwarded to the handle
/// of its target, or the reason why it cannot be delivered goes back to the
/// sender, or, for a signal addressed to nobody, nothing happens.
pub open spec fn reaction_to_signal<H>(roster: Roster<H>, signal: SignalView) -> ReactionView<H> {
    match route_of(roster, signal) {
        Route::Deliver(handle) => ReactionView::Forward(handle, signal),
        Route::Ignore => ReactionView::Idle,
        Route::Reject(error) => ReactionView::Reply(SignalView::Error(error)),
    }
}

/// What a decoded frame leads to: a signal is routed, and a frame that
/// holds no signal is answered with its parse error, to the sender alone.
pub open spec fn reaction_to_decoded<H>(
    roster: Roster<H>,
    frame: Result<SignalView, ErrorView>,
) -> ReactionView<H> {
    match frame {
        Ok(signal) => reaction_to_signal(roster, signal),
        Err(error) => ReactionView::Reply(SignalView::Error(error)),
    }
}

/// What the receive pump does with what arrived.
///
/// Only a joined connection receives: in every other state the pump is told
/// to stop. A close frame or a failure of the transport stops the pump. A
/// text frame is decoded and routed; a frame that holds no signal is
/// answered with its parse error, and a signal that cannot be delivered with
/// the reason, both to the sender alone. A binary frame is answered with
/// `ServiceUnavailable`. Other frames are passed over.
pub open spec fn reaction_of<H>(
    state: SessionState,
    roster: Roster<H>,
    inbound: InboundView,
) -> ReactionView<H> {
    if state != SessionState::Joined {
        ReactionView::Stop
    } else {
        match inbound {
            InboundView::Close => ReactionView::Stop,
            InboundView::Failed => ReactionView::Stop,
            InboundView::Other => ReactionView::Idle,
            InboundView::Binary => ReactionView::Reply(
                SignalView::Error(ErrorView::ServiceUnavailable),
            ),
            InboundView::Text(text) => reaction_to_decoded(roster, decoded(text)),
        }
    }
}

/// What goes back to the sender once a delivery was tried: nothing when it
/// went through, the error when it did not.
pub open spec fn reply_after_delivery(outcome: Result<(), MailboxError>) -> Option<SignalView> {
    match delivery_result(outcome) {
        Ok(()) => None,
        Err(error) => Some(SignalView::Error(error)),
    }
}

/// Whether a discriminator is one of the six that name a signal.
pub open spec fn names_a_signal(kind: Seq<char>) -> bool {
    kind == "offer"@ || kind == "answer"@ || kind == "new_ice_candidate"@ || kind == "assign"@
        || kind == "error"@ || kind == "connected_list"@
}

/// A signal reaches its target and nobody else: when a joined connection
/// receives a text frame that holds an offer, an answer or an ICE candidate
/// for a registered name, the one thing that happens is that this signal,
/// with every field as it came, is forwarded to the handle registered under
/// that name; the connection stays joined.
pub proof fn law_signal_reaches_its_target<H>(
    roster: Roster<H>,
    signal: SignalView,
    target: Seq<char>,
)
    requires
        signal.target() == Some(target),
        registered(roster, target),
    ensures
        reaction_to_signal(roster, signal) == ReactionView::Forward(
            handle_of(roster, target),
            signal,
        ),
        forall|text: Seq<char>| #[trigger]
            decoded(text) == Ok::<SignalView, ErrorView>(signal) ==> {
                &&& reaction_of(SessionState::Joined, roster, InboundView::Text(text))
                    == ReactionView::Forward(handle_of(roster, target), signal)
                &&& state_after(SessionState::Joined, InboundView::Text(text))
                    == SessionState::Joined
            },
{
}

/// A signal for a name that nobody has is reported to its sender and goes
/// nowhere else: the one thing that happens is that `TargetNotFound` with
/// that name goes back through the sender's own send path; the connection
/// stays joined.
pub proof fn law_unknown_target_is_reported<H>(
    roster: Roster<H>,
    signal: SignalView,
    target: Seq<char>,
)
    requires
        signal.target() == Some(target),
        !registered(roster, target),
    ensures
        reaction_to_signal(roster, signal) == ReactionView::<H>::Reply(
            SignalView::Error(ErrorView::TargetNotFound(target)),
        ),
        forall|text: Seq<char>| #[trigger]
            decoded(text) == Ok::<SignalView, ErrorView>(signal) ==> {
                &&& reaction_of(SessionState::Joined, roster, InboundView::Text(text))
                    == ReactionView::<H>::Reply(
                    SignalView::Error(ErrorView::TargetNotFound(target)),
                )
                &&& state_after(SessionState::Joined, InboundView::Text(text))
                    == SessionState::Joined
            },
{
}

/// A frame without a `type`, or with a `type` that is none of the six
/// discriminators, holds no signal: reading it gives a parse error. When a
/// joined connection receives such a frame, the one thing that happens is
/// that this error goes back to the connection it came from; the connection
/// stays joined, ready for the next frame.
pub proof fn law_malformed_frame_is_reported<H>(roster: Roster<H>, entries: Entries)
    requires
        match lookup(entries, "type"@) {
            Some(FieldView::Text(kind)) => !names_a_signal(kind),
            _ => true,
        },
    ensures
        signal_of(entries) is Err,
        signal_of(entries)->Err_0 is ParseError,
        forall|text: Seq<char>| #[trigger]
            parsed(text) == Ok::<Entries, ErrorView>(entries) ==> {
                &&& reaction_of(SessionState::Joined, roster, InboundView::Text(text))
                    == ReactionView::<H>::Reply(SignalView::Error(signal_of(entries)->Err_0))
                &&& state_after(SessionState::Joined, InboundView::Text(text))
                    == SessionState::Joined
            },
{
}

/// A connection never goes back: whatever arrives, the state it is in
/// afterwards is the state it was in or a later one.
pub proof fn law_states_only_advance(state: SessionState, inbound: InboundView)
    ensures
        state.reaches(state_after(state, inbound)),
{
}

/// The error for a router that cannot be reached.
pub fn into_service_related_error<T>(mailbox_error: MailboxError) -> (r: Result<T, Error>)
    ensures
        r is Err,
        r->Err_0@ == (match mailbox_error {
            MailboxError::Closed => ErrorView::ServiceUnavailable,
            MailboxError::Timeout => ErrorView::ServiceTimeout,
        }),
{
    Err(
        match mailbox_error {
            MailboxError::Closed => Error::ServiceUnavailable,
            MailboxError::Timeout => Error::ServiceTimeout,
        },
    )
}

/// An error as it is shown to a person: a short label and a sentence.
#[derive(Clone, Debug, PartialEq)]
pub struct ErrorMessage {
    pub kind: &'static str,
    pub message: String,
}

/// The mathematical value of an [`ErrorMessage`].
pub struct ErrorMessageView {
    pub kind: Seq<char>,
    pub message: Seq<char>,
}

impl View for ErrorMessage {
    type V = ErrorMessageView;

    open spec fn view(&self) -> ErrorMessageView {
        ErrorMessageView { kind: self.kind@, message: self.message@ }
    }
}

/// The label and the sentence for an error.
pub open spec fn error_message_of(error: ErrorView) -> ErrorMessageView {
    match error {
        ErrorView::ParseError(detail) => ErrorMessageView { kind: "parse error"@, message: detail },
        ErrorView::ConnectionClosed => ErrorMessageView {
            kind: "connection closed"@,
            message: "target user's connection is closed"@,
        },
        ErrorView::ConnectionTimeout => ErrorMessageView {
            kind: "timeout"@,
            message: "timeout occurres during send message to target user"@,
        },
        ErrorView::TargetNotFound(name) => ErrorMessageView {
            kind: "target user not found"@,
            message: "user "@ + name + " is not in connection"@,
        },
        ErrorView::ServiceUnavailable => ErrorMessageView {
            kind: "service unavailable"@,
            message: "service is unavailable, please contact to service provider"@,
        },
        ErrorView::ServiceTimeout => ErrorMessageView {
            kind: "service timeout"@,
            message: "service is busy. try after"@,
        },
        ErrorView::UserAlreadyJoined(name) => ErrorMessageView {
            kind: "user already joined"@,
            message: "User '"@ + name + "' already joined"@,
        },
    }
}

impl From<Error> for ErrorMessage {
    fn from(message_send_error: Error) -> (shown: Self)
        ensures
            shown@ == error_message_of(message_send_error@),
    {
        match message_send_error {
            Error::ParseError(parse_error) => ErrorMessage {
                kind: "parse error",
                message: parse_error,
            },
            Error::ConnectionClosed => ErrorMessage {
                kind: "connection closed",
                message: owned("target user's connection is closed"),
            },
            Error::ConnectionTimeout => ErrorMessage {
                kind: "timeout",
                message: owned("timeout occurres during send message to target user"),
            },
            Error::TargetNotFound(target_user_name) => ErrorMessage {
                kind: "target user not found",
                message: wrap("user ", target_user_name.as_str(), " is not in connection"),
            },
            Error::ServiceUnavailable => ErrorMessage {
                kind: "service unavailable",
                message: owned("service is unavailable, please contact to service provider"),
            },
            Error::ServiceTimeout => ErrorMessage {
                kind: "service timeout",
                message: owned("service is busy. try after"),
            },
            Error::UserAlreadyJoined(user) => ErrorMessage {
                kind: "user already joined",
                message: wrap("User '", user.as_str(), "' already joined"),
            },
        }
    }
}

/// The sentence of an [`ErrorMessage`] is built when `from` runs, so what
/// `from` returns is stated by its own `ensures`, over the views.
impl FromSpecImpl<Error> for ErrorMessage {
    open spec fn obeys_from_spec() -> bool {
        false
    }

    open spec fn from_spec(message_send_error: Error) -> Self {
        arbitrary()
    }
}

/// One connection of a peer.
pub struct SignalSocket {
    user_name: String,
    state: SessionState,
}

impl View for SignalSocket {
    type V = SessionView;

    closed spec fn view(&self) -> SessionView {
        SessionView { user_name: self.user_name@, state: self.state }
    }
}

impl SignalSocket {
    /// A connection that is to go by the name, not yet joined.
    pub fn new(user_name: String) -> (socket: Self)
        ensures
            socket@ == (SessionView { user_name: user_name@, state: SessionState::Connecting }),
    {
        SignalSocket { user_name, state: SessionState::Connecting }
    }

    /// The name of the connection.
    pub fn user_name(&self) -> (name: &String)
        ensures
            name@ == self@.user_name,
    {
        &self.user_name
    }

    /// The state of the connection.
    pub fn state(&self) -> (state: SessionState)
        ensures
            state == self@.state,
    {
        self.state
    }

    /// Joins the router under the connection's name.
    ///
    /// Only a connecting session joins; in any other state nothing changes
    /// and nothing is returned. If the name is free, it is registered with
    /// the handle, the session is joined, and the signal returned assigns
    /// the name: it is to go through the session's own send path. If the
    /// name is taken, the registry stays as it is, the session is closing,
    /// and the signal returned reports `UserAlreadyJoined`: it is to be
    /// written to the peer before the transport closes.
    pub fn started<H>(&mut self, router: &mut SignalRouter<H>, handle: H) -> (first: Option<
        Signal,
    >)
        ensures
            final(self)@.user_name == old(self)@.user_name,
            old(self)@.state.reaches(final(self)@.state),
            old(self)@.state != SessionState::Connecting ==> {
                &&& first is None
                &&& final(self)@ == old(self)@
                &&& final(router)@ == old(router)@
            },
            old(self)@.state == SessionState::Connecting && !registered(
                old(router)@,
                old(self)@.user_name,
            ) ==> {
                &&& option_view(first) == Some(SignalView::Assign(old(self)@.user_name))
                &&& final(self)@.state == SessionState::Joined
                &&& final(router)@ == old(router)@.push((old(self)@.user_name, handle))
            },
            old(self)@.state == SessionState::Connecting && registered(
                old(router)@,
                old(self)@.user_name,
            ) ==> {
                &&& option_view(first) == Some(
                    SignalView::Error(ErrorView::UserAlreadyJoined(old(self)@.user_name)),
                )
                &&& final(self)@.state == SessionState::Closing
                &&& final(router)@ == old(router)@
            },
    {
        match self.state {
            SessionState::Connecting => {
                let message = JoinMessage::new(self.user_name.clone(), handle);
                match router.handle_join(message) {
                    Ok(()) => {
                        self.state = SessionState::Joined;
                        Some(Signal::assign(self.user_name.clone()))
                    },
                    Err(error) => {
                        self.state = SessionState::Closing;
                        Some(Signal::Error(error))
                    },
                }
            },
            _ => None,
        }
    }

    /// Joins the router as [`SignalSocket::started`] does, and hands the
    /// signal that assigns the name to the connection's own send path, so
    /// that the peer learns its name. What is returned is the refusal, when
    /// the name was taken: it is to be written to the peer before the
    /// transport closes.
    pub fn open(
        &mut self,
        router: &mut SignalRouter<tokio::sync::broadcast::Sender<Signal>>,
        handle: tokio::sync::broadcast::Sender<Signal>,
    ) -> (refusal: Option<Signal>)
        ensures
            final(self)@.user_name == old(self)@.user_name,
            old(self)@.state.reaches(final(self)@.state),
            final(router)@ == if old(self)@.state == SessionState::Connecting {
                after_join(old(router)@, old(self)@.user_name, handle)
            } else {
                old(router)@
            },
            final(self)@.state == if old(self)@.state != SessionState::Connecting {
                old(self)@.state
            } else if registered(old(router)@, old(self)@.user_name) {
                SessionState::Closing
            } else {
                SessionState::Joined
            },
            option_view(refusal) == if old(self)@.state == SessionState::Connecting && registered(
                old(router)@,
                old(self)@.user_name,
            ) {
                Some(SignalView::Error(ErrorView::UserAlreadyJoined(old(self)@.user_name)))
            } else {
                None
            },
    {
        match self.started(router, handle) {
            None => None,
            Some(first) => match self.state {
                SessionState::Joined => {
                    self.push(router, first);
                    None
                },
                _ => Some(first),
            },
        }
    }

    /// Ends the connection: releases its name and closes the session. The
    /// name is released whether or not this session had joined under it. A
    /// session that is closed already releases nothing.
    pub fn stopped<H>(&mut self, router: &mut SignalRouter<H>)
        ensures
            final(self)@ == (SessionView {
                user_name: old(self)@.user_name,
                state: SessionState::Closed,
            }),
            old(self)@.state.reaches(final(self)@.state),
            final(router)@ == if old(self)@.state == SessionState::Closed {
                old(router)@
            } else {
                after_leave(old(router)@, old(self)@.user_name)
            },
    {
        match self.state {
            SessionState::Closed => {},
            _ => {
                router.handle_exit(ExitMessage::from(self.user_name.clone()));
                self.state = SessionState::Closed;
            },
        }
    }

    /// Takes what arrived from the peer and says what the receive pump is to
    /// do with it.
    pub fn handle<'a, H>(&mut self, router: &'a SignalRouter<H>, message: Inbound) -> (reaction:
        Reaction<'a, H>)
        ensures
            final(self)@.user_name == old(self)@.user_name,
            final(self)@.state == state_after(old(self)@.state, message@),
            old(self)@.state.reaches(final(self)@.state),
            reaction@ == reaction_of(old(self)@.state, router@, message@),
    {
        match self.state {
            SessionState::Joined => {},
            _ => {
                return Reaction::Stop;
            },
        }
        match message {
            Inbound::Close => {
                self.state = SessionState::Closing;
                Reaction::Stop
            },
            Inbound::Failed => {
                self.state = SessionState::Closing;
                Reaction::Stop
            },
            Inbound::Other => Reaction::Idle,
            Inbound::Binary => Reaction::Reply(Signal::Error(Error::ServiceUnavailable)),
            Inbound::Text(text) => Self::handle_decoded(router, Signal::deserialize(text.as_str())),
        }
    }

    /// Says what is to be done with a text frame once it is decoded.
    pub fn handle_decoded<'a, H>(router: &'a SignalRouter<H>, frame: Result<Signal, Error>) -> (
    reaction: Reaction<'a, H>)
        ensures
            reaction@ == reaction_to_decoded(router@, crate::text::result_view(frame)),
    {
        match frame {
            Err(error) => Reaction::Reply(Signal::Error(error)),
            Ok(signal) => Self::handle_signal_message(router, signal),
        }
    }

    /// Says what is to be done with a signal that the peer sent.
    pub fn handle_signal_message<'a, H>(router: &'a SignalRouter<H>, signal: Signal) -> (reaction:
        Reaction<'a, H>)
        ensures
            reaction@ == reaction_to_signal(router@, signal@),
    {
        match router.resolve(&signal) {
            Ok(Some(handle)) => Reaction::Forward(handle, signal),
            Ok(None) => Reaction::Idle,
            Err(error) => Reaction::Reply(Signal::Error(error)),
        }
    }

    /// What goes back to the sender once the delivery of its signal was
    /// tried.
    pub fn delivery_reply(outcome: Result<(), MailboxError>) -> (reply: Option<Signal>)
        ensures
            option_view(reply) == reply_after_delivery(outcome),
    {
        match crate::signal_router::delivered(outcome) {
            Ok(()) => None,
            Err(error) => Some(Signal::Error(error)),
        }
    }

    /// The text frame that the send pump writes for a signal. Only a joined
    /// connection sends: in every other state there is nothing to write.
    pub fn outbound(&self, signal: &Signal) -> (frame: Option<String>)
        ensures
            option_view(frame) == if self@.state == SessionState::Joined {
                Some(encoded(signal@))
            } else {
                None
            },
    {
        match self.state {
            SessionState::Joined => Some(signal.serialize()),
            _ => None,
        }
    }

    /// Hands a signal to the connection's own send path: the handle
    /// registered under the connection's name. Says whether the signal was
    /// queued; it is not when the name is not registered or when the
    /// channel is closed.
    pub fn push(&self, router: &SignalRouter<tokio::sync::broadcast::Sender<Signal>>, signal: Signal)
        -> (queued: bool)
        ensures
            queued ==> registered(router@, self@.user_name),
    {
        match router.target(self.user_name.as_str()) {
            Some(handle) => send(handle, signal),
            None => false,
        }
    }

    /// Reports an error to the peer of this connection.
    pub fn error_handler(
        &self,
        router: &SignalRouter<tokio::sync::broadcast::Sender<Signal>>,
        err: Error,
    ) -> (queued: bool)
        ensures
            queued ==> registered(router@, self@.user_name),
    {
        self.push(router, Signal::Error(err))
    }

    /// Takes what arrived from the peer and does what [`SignalSocket::handle`]
    /// says: a signal for a registered target is sent through the target's
    /// handle, once, and if the handle does not take it the sender is told
    /// `ConnectionClosed`; a reply goes through the connection's own handle.
    /// Says whether the receive pump is to go on.
    pub fn handle_msg(
        &mut self,
        router: &SignalRouter<tokio::sync::broadcast::Sender<Signal>>,
        message: Inbound,
    ) -> (going: bool)
        ensures
            final(self)@.user_name == old(self)@.user_name,
            final(self)@.state == state_after(old(self)@.state, message@),
            old(self)@.state.reaches(final(self)@.state),
            going == !(reaction_of(old(self)@.state, router@, message@) is Stop),
    {
        match self.handle(router, message) {
            Reaction::Stop => false,
            Reaction::Idle => true,
            Reaction::Reply(signal) => {
                self.push(router, signal);
                true
            },
            Reaction::Forward(handle, signal) => {
                let outcome = if send(handle, signal) {
                    Ok(())
                } else {
                    Err(MailboxError::Closed)
                };
                match Self::delivery_reply(outcome) {
                    None => {},
                    Some(reply) => {
                        self.push(router, reply);
                    },
                }
                true
            },
        }
    }

    /// Takes note that a frame could not be written: a joined connection
    /// starts closing.
    pub fn write_failed(&mut self)
        ensures
            final(self)@.user_name == old(self)@.user_name,
            final(self)@.state == state_after(old(self)@.state, InboundView::Failed),
            old(self)@.state.reaches(final(self)@.state),
    {
        match self.state {
            SessionState::Joined => {
                self.state = SessionState::Closing;
            },
            _ => {},
        }
    }
}

} // verus!
