//! The signals that peers and the relay exchange.

use vstd::prelude::*;
use crate::error::{Error, ErrorView};

pub mod deserialize;
pub mod frame;
pub mod serialize;

verus! {

/// One message of the signaling protocol.
#[derive(Clone, Debug, PartialEq)]
pub enum Signal {
    /// A session description offered to `target`.
    Offer(SessionDescriptionMessage),
    /// A session description answering an offer of `target`.
    Answer(SessionDescriptionMessage),
    /// An ICE candidate for `target`.
    NewIceCandidate(IceCandidate),
    /// The relay tells a peer the name it is registered under.
    Assign(AssignName),
    /// The relay tells a peer that something failed.
    Error(Error),
    /// The relay tells a peer who is connected, in the order they joined.
    ConnectedList(Vec<String>),
}

/// The payload of [`Signal::Assign`].
#[derive(Clone, Debug, PartialEq)]
pub struct AssignName {
    pub name: String,
}

/// The payload of [`Signal::Offer`] and [`Signal::Answer`].
#[derive(Clone, Debug, PartialEq)]
pub struct SessionDescriptionMessage {
    pub target: String,
    pub name: String,
    pub sdp: String,
}

/// The payload of [`Signal::NewIceCandidate`].
#[derive(Clone, Debug, PartialEq)]
pub struct IceCandidate {
    pub target: String,
    pub candidate: String,
    pub name: String,
}

/// The mathematical value of a [`SessionDescriptionMessage`].
pub struct SessionDescriptionView {
    pub target: Seq<char>,
    pub name: Seq<char>,
    pub sdp: Seq<char>,
}

/// The mathematical value of an [`IceCandidate`].
pub struct IceCandidateView {
    pub target: Seq<char>,
    pub candidate: Seq<char>,
    pub name: Seq<char>,
}

/// The mathematical value of a [`Signal`].
pub enum SignalView {
    Offer(SessionDescriptionView),
    Answer(SessionDescriptionView),
    NewIceCandidate(IceCandidateView),
    Assign(Seq<char>),
    Error(ErrorView),
    ConnectedList(Seq<Seq<char>>),
}

/// The characters of each string of a list.
pub open spec fn texts(names: Seq<String>) -> Seq<Seq<char>> {
    names.map_values(|name: String| name@)
}

impl View for AssignName {
    type V = Seq<char>;

    open spec fn view(&self) -> Seq<char> {
        self.name@
    }
}

impl View for SessionDescriptionMessage {
    type V = SessionDescriptionView;

    open spec fn view(&self) -> SessionDescriptionView {
        SessionDescriptionView { target: self.target@, name: self.name@, sdp: self.sdp@ }
    }
}

impl View for IceCandidate {
    type V = IceCandidateView;

    open spec fn view(&self) -> IceCandidateView {
        IceCandidateView { target: self.target@, candidate: self.candidate@, name: self.name@ }
    }
}

impl View for Signal {
    type V = SignalView;

    open spec fn view(&self) -> SignalView {
        match self {
            Signal::Offer(message) => SignalView::Offer(message@),
            Signal::Answer(message) => SignalView::Answer(message@),
            Signal::NewIceCandidate(candidate) => SignalView::NewIceCandidate(candidate@),
            Signal::Assign(assigned) => SignalView::Assign(assigned@),
            Signal::Error(error) => SignalView::Error(error@),
            Signal::ConnectedList(names) => SignalView::ConnectedList(texts(names@)),
        }
    }
}

impl SignalView {
    /// The name that a signal is addressed to. Only offers, answers and ICE
    /// candidates are addressed to a peer.
    pub open spec fn target(self) -> Option<Seq<char>> {
        match self {
            SignalView::Offer(message) => Some(message.target),
            SignalView::Answer(message) => Some(message.target),
            SignalView::NewIceCandidate(candidate) => Some(candidate.target),
            SignalView::Assign(_) => None,
            SignalView::Error(_) => None,
            SignalView::ConnectedList(_) => None,
        }
    }
}

impl Signal {
    /// The signal that tells a peer its name.
    pub fn assign(user_name: String) -> (signal: Signal)
        ensures
            signal@ == SignalView::Assign(user_name@),
    {
        Signal::Assign(AssignName { name: user_name })
    }

    /// The name that the signal is addressed to, if it is addressed to a peer.
    pub fn target(&self) -> (r: Option<&String>)
        ensures
            crate::text::option_view(r) == self@.target(),
    {
        match self {
            Signal::Offer(message) => Some(&message.target),
            Signal::Answer(message) => Some(&message.target),
            Signal::NewIceCandidate(candidate) => Some(&candidate.target),
            Signal::Assign(_) => None,
            Signal::Error(_) => None,
            Signal::ConnectedList(_) => None,
        }
    }
}

} // verus!
