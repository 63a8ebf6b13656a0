//! Reading a signal from a frame.
//!
//! The `type` entry of a frame says which signal it is; the other entries
//! that the signal needs are looked up by their key, so their order does not
//! matter, and entries that the signal does not need are passed over.

use vstd::prelude::*;
use crate::error::{Error, ErrorView};
use crate::signal::frame::{list_field, parsed, text_field, Entries, Frame};
use crate::signal::{
    IceCandidate, IceCandidateView, SessionDescriptionMessage, SessionDescriptionView, Signal,
    SignalView,
};
use crate::text::{result_view, same_text, wrap};

verus! {

/// The error for a `type` that names no signal.
pub open spec fn unknown_type(kind: Seq<char>) -> ErrorView {
    ErrorView::ParseError(
        "invalid value: string \""@ + kind
            + "\", expected offer, answer, new_ice_candidate, assign, error, connected_list"@,
    )
}

/// The error for a `kind` that names no error.
pub open spec fn unknown_kind(kind: Seq<char>) -> ErrorView {
    ErrorView::ParseError("invalid value: string \""@ + kind + "\", expected the kind of an error"@)
}

/// The session description in a frame: `name`, `target` and `sdp` must be
/// there as strings; the first of them, in this order, that is not decides
/// the error.
pub open spec fn session_description_of(entries: Entries) -> Result<
    SessionDescriptionView,
    ErrorView,
> {
    match text_field(entries, "name"@) {
        Err(error) => Err(error),
        Ok(name) => match text_field(entries, "target"@) {
            Err(error) => Err(error),
            Ok(target) => match text_field(entries, "sdp"@) {
                Err(error) => Err(error),
                Ok(sdp) => Ok(SessionDescriptionView { target, name, sdp }),
            },
        },
    }
}

/// The ICE candidate in a frame: `target`, `candidate` and `name` must be
/// there as strings; the first of them, in this order, that is not decides
/// the error.
pub open spec fn ice_candidate_of(entries: Entries) -> Result<IceCandidateView, ErrorView> {
    match text_field(entries, "target"@) {
        Err(error) => Err(error),
        Ok(target) => match text_field(entries, "candidate"@) {
            Err(error) => Err(error),
            Ok(candidate) => match text_field(entries, "name"@) {
                Err(error) => Err(error),
                Ok(name) => Ok(IceCandidateView { target, candidate, name }),
            },
        },
    }
}

/// The assigned name in a frame: `name` must be there as a string.
pub open spec fn assigned_name_of(entries: Entries) -> Result<Seq<char>, ErrorView> {
    text_field(entries, "name"@)
}

/// The reported error in a frame: `kind` and `detail` must be there as
/// strings, and the kind must be one of the seven.
pub open spec fn reported_error_of(entries: Entries) -> Result<ErrorView, ErrorView> {
    match text_field(entries, "kind"@) {
        Err(error) => Err(error),
        Ok(kind) => match text_field(entries, "detail"@) {
            Err(error) => Err(error),
            Ok(detail) => match ErrorView::from_parts(kind, detail) {
                Some(reported) => Ok(reported),
                None => Err(unknown_kind(kind)),
            },
        },
    }
}

/// The signal in a frame. `type` must be there as a string and be one of the
/// six discriminators, letter for letter; the entries that this signal needs
/// must be there too.
pub open spec fn signal_of(entries: Entries) -> Result<SignalView, ErrorView> {
    match text_field(entries, "type"@) {
        Err(error) => Err(error),
        Ok(kind) => if kind == "offer"@ {
            match session_description_of(entries) {
                Ok(message) => Ok(SignalView::Offer(message)),
                Err(error) => Err(error),
            }
        } else if kind == "answer"@ {
            match session_description_of(entries) {
                Ok(message) => Ok(SignalView::Answer(message)),
                Err(error) => Err(error),
            }
        } else if kind == "new_ice_candidate"@ {
            match ice_candidate_of(entries) {
                Ok(candidate) => Ok(SignalView::NewIceCandidate(candidate)),
                Err(error) => Err(error),
            }
        } else if kind == "assign"@ {
            match assigned_name_of(entries) {
                Ok(name) => Ok(SignalView::Assign(name)),
                Err(error) => Err(error),
            }
        } else if kind == "error"@ {
            match reported_error_of(entries) {
                Ok(reported) => Ok(SignalView::Error(reported)),
                Err(error) => Err(error),
            }
        } else if kind == "connected_list"@ {
            match list_field(entries, "names"@) {
                Ok(names) => Ok(SignalView::ConnectedList(names)),
                Err(error) => Err(error),
            }
        } else {
            Err(unknown_type(kind))
        },
    }
}

/// The signal in a text frame: the text must be a JSON object, and the
/// object must hold a signal.
pub open spec fn decoded(text: Seq<char>) -> Result<SignalView, ErrorView> {
    match parsed(text) {
        Ok(entries) => signal_of(entries),
        Err(error) => Err(error),
    }
}

/// Reads a [`Signal`] from a frame.
pub struct SignalVisitor;

/// Reads a [`SessionDescriptionMessage`] from a frame.
pub struct SessionDescriptionVisitor;

/// Reads an [`IceCandidate`] from a frame.
pub struct IceCandidateVisitor;

/// Reads the name of an assignment from a frame.
pub struct AssignedNameVisitor;

/// Reads the error of an error report from a frame.
pub struct ReportedErrorVisitor;

impl SessionDescriptionVisitor {
    pub fn visit_map(&self, map: &Frame) -> (r: Result<SessionDescriptionMessage, Error>)
        ensures
            result_view(r) == session_description_of(map@),
    {
        let name = match map.text("name") {
            Ok(name) => name,
            Err(error) => {
                return Err(error);
            },
        };
        let target = match map.text("target") {
            Ok(target) => target,
            Err(error) => {
                return Err(error);
            },
        };
        let sdp = match map.text("sdp") {
            Ok(sdp) => sdp,
            Err(error) => {
                return Err(error);
            },
        };
        Ok(SessionDescriptionMessage { target, name, sdp })
    }
}

impl IceCandidateVisitor {
    pub fn visit_map(&self, map: &Frame) -> (r: Result<IceCandidate, Error>)
        ensures
            result_view(r) == ice_candidate_of(map@),
    {
        let target = match map.text("target") {
            Ok(target) => target,
            Err(error) => {
                return Err(error);
            },
        };
        let candidate = match map.text("candidate") {
            Ok(candidate) => candidate,
            Err(error) => {
                return Err(error);
            },
        };
        let name = match map.text("name") {
            Ok(name) => name,
            Err(error) => {
                return Err(error);
            },
        };
        Ok(IceCandidate { target, candidate, name })
    }
}

impl AssignedNameVisitor {
    pub fn visit_map(&self, map: &Frame) -> (r: Result<String, Error>)
        ensures
            result_view(r) == assigned_name_of(map@),
    {
        map.text("name")
    }
}

impl ReportedErrorVisitor {
    pub fn visit_map(&self, map: &Frame) -> (r: Result<Error, Error>)
        ensures
            result_view(r) == reported_error_of(map@),
    {
        let kind = match map.text("kind") {
            Ok(kind) => kind,
            Err(error) => {
                return Err(error);
            },
        };
        let detail = match map.text("detail") {
            Ok(detail) => detail,
            Err(error) => {
                return Err(error);
            },
        };
        match Error::from_parts(kind.as_str(), detail) {
            Some(reported) => Ok(reported),
            None => Err(
                Error::ParseError(
                    wrap(
                        "invalid value: string \"",
                        kind.as_str(),
                        "\", expected the kind of an error",
                    ),
                ),
            ),
        }
    }
}

impl SignalVisitor {
    pub fn visit_map(&self, map: &Frame) -> (r: Result<Signal, Error>)
        ensures
            result_view(r) == signal_of(map@),
    {
        let kind = match map.text("type") {
            Ok(kind) => kind,
            Err(error) => {
                return Err(error);
            },
        };
        if same_text(kind.as_str(), "offer") {
            match SessionDescriptionVisitor.visit_map(map) {
                Ok(message) => Ok(Signal::Offer(message)),
                Err(error) => Err(error),
            }
        } else if same_text(kind.as_str(), "answer") {
            match SessionDescriptionVisitor.visit_map(map) {
                Ok(message) => Ok(Signal::Answer(message)),
                Err(error) => Err(error),
            }
        } else if same_text(kind.as_str(), "new_ice_candidate") {
            match IceCandidateVisitor.visit_map(map) {
                Ok(candidate) => Ok(Signal::NewIceCandidate(candidate)),
                Err(error) => Err(error),
            }
        } else if same_text(kind.as_str(), "assign") {
            match AssignedNameVisitor.visit_map(map) {
                Ok(name) => Ok(Signal::assign(name)),
                Err(error) => Err(error),
            }
        } else if same_text(kind.as_str(), "error") {
            match ReportedErrorVisitor.visit_map(map) {
                Ok(reported) => Ok(Signal::Error(reported)),
                Err(error) => Err(error),
            }
        } else if same_text(kind.as_str(), "connected_list") {
            match map.list("names") {
                Ok(names) => Ok(Signal::ConnectedList(names)),
                Err(error) => Err(error),
            }
        } else {
            Err(
                Error::ParseError(
                    wrap(
                        "invalid value: string \"",
                        kind.as_str(),
                        "\", expected offer, answer, new_ice_candidate, assign, error, connected_list",
                    ),
                ),
            )
        }
    }
}

impl Signal {
    /// The signal in a text frame, or the parse error that says why the text
    /// holds none.
    pub fn deserialize(text: &str) -> (r: Result<Signal, Error>)
        ensures
            result_view(r) == decoded(text@),
    {
        match Frame::parse(text) {
            Ok(frame) => SignalVisitor.visit_map(&frame),
            Err(error) => Err(error),
        }
    }
}

} // verus!
