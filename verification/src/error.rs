//! The failures that the relay reports to a peer.

use vstd::prelude::*;
use crate::text::{option_view, owned, same_text, wrap};

verus! {

/// Why a frame could not be decoded, a peer could not join, or a signal could
/// not be delivered.
#[derive(Clone, Debug, PartialEq)]
pub enum Error {
    /// The frame is not a signal; the payload says why.
    ParseError(String),
    /// The target's connection no longer accepts signals.
    ConnectionClosed,
    /// The target did not accept the signal in time.
    ConnectionTimeout,
    /// Nobody is registered under the name the signal is addressed to.
    TargetNotFound(String),
    /// The router itself is gone.
    ServiceUnavailable,
    /// The router did not answer in time.
    ServiceTimeout,
    /// The name is already registered by another connection.
    UserAlreadyJoined(String),
}

/// The mathematical value of an [`Error`].
pub enum ErrorView {
    ParseError(Seq<char>),
    ConnectionClosed,
    ConnectionTimeout,
    TargetNotFound(Seq<char>),
    ServiceUnavailable,
    ServiceTimeout,
    UserAlreadyJoined(Seq<char>),
}

impl View for Error {
    type V = ErrorView;

    open spec fn view(&self) -> ErrorView {
        match self {
            Error::ParseError(detail) => ErrorView::ParseError(detail@),
            Error::ConnectionClosed => ErrorView::ConnectionClosed,
            Error::ConnectionTimeout => ErrorView::ConnectionTimeout,
            Error::TargetNotFound(name) => ErrorView::TargetNotFound(name@),
            Error::ServiceUnavailable => ErrorView::ServiceUnavailable,
            Error::ServiceTimeout => ErrorView::ServiceTimeout,
            Error::UserAlreadyJoined(name) => ErrorView::UserAlreadyJoined(name@),
        }
    }
}

impl ErrorView {
    /// The name of the variant on the wire.
    pub open spec fn kind(self) -> Seq<char> {
        match self {
            ErrorView::ParseError(_) => "parse_error"@,
            ErrorView::ConnectionClosed => "connection_closed"@,
            ErrorView::ConnectionTimeout => "connection_timeout"@,
            ErrorView::TargetNotFound(_) => "target_not_found"@,
            ErrorView::ServiceUnavailable => "service_unavailable"@,
            ErrorView::ServiceTimeout => "service_timeout"@,
            ErrorView::UserAlreadyJoined(_) => "user_already_joined"@,
        }
    }

    /// What accompanies the kind on the wire: the payload of the variants that
    /// have one, and a fixed sentence for the others.
    pub open spec fn detail(self) -> Seq<char> {
        match self {
            ErrorView::ParseError(detail) => detail,
            ErrorView::ConnectionClosed => "target user's connection is closed"@,
            ErrorView::ConnectionTimeout => "timeout occurres during send message to target user"@,
            ErrorView::TargetNotFound(name) => name,
            ErrorView::ServiceUnavailable =>
                "service is unavailable, please contact to service provider"@,
            ErrorView::ServiceTimeout => "service is busy. try after"@,
            ErrorView::UserAlreadyJoined(name) => name,
        }
    }

    /// The error that a kind and a detail stand for, if the kind is known.
    /// The detail of a kind without payload is not looked at.
    pub open spec fn from_parts(kind: Seq<char>, detail: Seq<char>) -> Option<ErrorView> {
        if kind == "parse_error"@ {
            Some(ErrorView::ParseError(detail))
        } else if kind == "connection_closed"@ {
            Some(ErrorView::ConnectionClosed)
        } else if kind == "connection_timeout"@ {
            Some(ErrorView::ConnectionTimeout)
        } else if kind == "target_not_found"@ {
            Some(ErrorView::TargetNotFound(detail))
        } else if kind == "service_unavailable"@ {
            Some(ErrorView::ServiceUnavailable)
        } else if kind == "service_timeout"@ {
            Some(ErrorView::ServiceTimeout)
        } else if kind == "user_already_joined"@ {
            Some(ErrorView::UserAlreadyJoined(detail))
        } else {
            None
        }
    }

    /// The error written out for a log line.
    pub open spec fn text(self) -> Seq<char> {
        match self {
            ErrorView::ParseError(detail) => "ParseError("@ + detail + ")"@,
            ErrorView::ConnectionClosed => "ConnectionClosed"@,
            ErrorView::ConnectionTimeout => "ConnectionTimeout"@,
            ErrorView::TargetNotFound(name) => "TargetNotFound(target_user_name: "@ + name + ")"@,
            ErrorView::ServiceUnavailable => "ServiceUnavailable"@,
            ErrorView::ServiceTimeout => "ServiceTemporaryUnavailable"@,
            ErrorView::UserAlreadyJoined(name) => "UserAlreadyJoined("@ + name + ")"@,
        }
    }
}

/// The seven kinds are pairwise different words.
pub proof fn lemma_kinds_differ()
    ensures
        "parse_error"@ != "connection_closed"@,
        "parse_error"@ != "connection_timeout"@,
        "parse_error"@ != "target_not_found"@,
        "parse_error"@ != "service_unavailable"@,
        "parse_error"@ != "service_timeout"@,
        "parse_error"@ != "user_already_joined"@,
        "connection_closed"@ != "connection_timeout"@,
        "connection_closed"@ != "target_not_found"@,
        "connection_closed"@ != "service_unavailable"@,
        "connection_closed"@ != "service_timeout"@,
        "connection_closed"@ != "user_already_joined"@,
        "connection_timeout"@ != "target_not_found"@,
        "connection_timeout"@ != "service_unavailable"@,
        "connection_timeout"@ != "service_timeout"@,
        "connection_timeout"@ != "user_already_joined"@,
        "target_not_found"@ != "service_unavailable"@,
        "target_not_found"@ != "service_timeout"@,
        "target_not_found"@ != "user_already_joined"@,
        "service_unavailable"@ != "service_timeout"@,
        "service_unavailable"@ != "user_already_joined"@,
        "service_timeout"@ != "user_already_joined"@,
{
    reveal_strlit("parse_error");
    reveal_strlit("connection_closed");
    reveal_strlit("connection_timeout");
    reveal_strlit("target_not_found");
    reveal_strlit("service_unavailable");
    reveal_strlit("service_timeout");
    reveal_strlit("user_already_joined");
    assert("parse_error"@.len() == 11);
    assert("connection_closed"@.len() == 17);
    assert("connection_timeout"@.len() == 18);
    assert("target_not_found"@.len() == 16);
    assert("service_unavailable"@.len() == 19 && "service_unavailable"@[0] == 's');
    assert("service_timeout"@.len() == 15);
    assert("user_already_joined"@.len() == 19 && "user_already_joined"@[0] == 'u');
}

/// Kind and detail together determine the error: reading back what
/// [`ErrorView::kind`] and [`ErrorView::detail`] give yields the error itself.
pub proof fn lemma_parts_round_trip(error: ErrorView)
    ensures
        ErrorView::from_parts(error.kind(), error.detail()) == Some(error),
{
    lemma_kinds_differ();
}

impl Error {
    /// The name of the variant on the wire.
    pub fn kind(&self) -> (r: &'static str)
        ensures
            r@ == self@.kind(),
    {
        match self {
            Error::ParseError(_) => "parse_error",
            Error::ConnectionClosed => "connection_closed",
            Error::ConnectionTimeout => "connection_timeout",
            Error::TargetNotFound(_) => "target_not_found",
            Error::ServiceUnavailable => "service_unavailable",
            Error::ServiceTimeout => "service_timeout",
            Error::UserAlreadyJoined(_) => "user_already_joined",
        }
    }

    /// What accompanies the kind on the wire.
    pub fn detail(&self) -> (r: String)
        ensures
            r@ == self@.detail(),
    {
        match self {
            Error::ParseError(detail) => detail.clone(),
            Error::ConnectionClosed => owned("target user's connection is closed"),
            Error::ConnectionTimeout => owned(
                "timeout occurres during send message to target user",
            ),
            Error::TargetNotFound(name) => name.clone(),
            Error::ServiceUnavailable => owned(
                "service is unavailable, please contact to service provider",
            ),
            Error::ServiceTimeout => owned("service is busy. try after"),
            Error::UserAlreadyJoined(name) => name.clone(),
        }
    }

    /// The error that a kind and a detail stand for; `None` for an unknown kind.
    pub fn from_parts(kind: &str, detail: String) -> (r: Option<Error>)
        ensures
            option_view(r) == ErrorView::from_parts(kind@, detail@),
    {
        if same_text(kind, "parse_error") {
            Some(Error::ParseError(detail))
        } else if same_text(kind, "connection_closed") {
            Some(Error::ConnectionClosed)
        } else if same_text(kind, "connection_timeout") {
            Some(Error::ConnectionTimeout)
        } else if same_text(kind, "target_not_found") {
            Some(Error::TargetNotFound(detail))
        } else if same_text(kind, "service_unavailable") {
            Some(Error::ServiceUnavailable)
        } else if same_text(kind, "service_timeout") {
            Some(Error::ServiceTimeout)
        } else if same_text(kind, "user_already_joined") {
            Some(Error::UserAlreadyJoined(detail))
        } else {
            None
        }
    }

    /// The error written out for a log line.
    pub fn to_text(&self) -> (r: String)
        ensures
            r@ == self@.text(),
    {
        match self {
            Error::ParseError(detail) => wrap("ParseError(", detail.as_str(), ")"),
            Error::ConnectionClosed => owned("ConnectionClosed"),
            Error::ConnectionTimeout => owned("ConnectionTimeout"),
            Error::TargetNotFound(name) => wrap(
                "TargetNotFound(target_user_name: ",
                name.as_str(),
                ")",
            ),
            Error::ServiceUnavailable => owned("ServiceUnavailable"),
            Error::ServiceTimeout => owned("ServiceTemporaryUnavailable"),
            Error::UserAlreadyJoined(name) => wrap("UserAlreadyJoined(", name.as_str(), ")"),
        }
    }
}

} // verus!
