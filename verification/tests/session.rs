use signal_relay::error::Error;
use signal_relay::mailbox::MailboxError;
use signal_relay::signal::{SessionDescriptionMessage, Signal};
use signal_relay::signal_router::{JoinMessage, SignalRouter};
use signal_relay::signal_socket::{
    into_service_related_error, ErrorMessage, Inbound, Reaction, SessionState, SignalSocket,
};
use tokio::sync::broadcast::error::TryRecvError;
use tokio::sync::broadcast::{channel, Receiver, Sender};

fn offer(name: &str, target: &str, sdp: &str) -> Signal {
    Signal::Offer(SessionDescriptionMessage {
        target: target.to_owned(),
        name: name.to_owned(),
        sdp: sdp.to_owned(),
    })
}

fn join(
    router: &mut SignalRouter<Sender<Signal>>,
    name: &str,
) -> (SignalSocket, Receiver<Signal>) {
    let (handle, inbox) = channel(16);
    let mut socket = SignalSocket::new(name.to_owned());
    let first = socket.started(router, handle);
    assert_eq!(first, Some(Signal::assign(name.to_owned())));
    assert_eq!(socket.state(), SessionState::Joined);
    (socket, inbox)
}

fn is_idle<H>(reaction: &Reaction<H>) -> bool {
    matches!(reaction, Reaction::Idle)
}

fn is_stop<H>(reaction: &Reaction<H>) -> bool {
    matches!(reaction, Reaction::Stop)
}

#[test]
fn a_new_session_is_connecting() {
    let socket = SignalSocket::new("alice".to_owned());
    assert_eq!(socket.state(), SessionState::Connecting);
    assert_eq!(socket.user_name(), "alice");
}

#[test]
fn started_joins_and_assigns_the_name() {
    let mut router: SignalRouter<u8> = SignalRouter::new();
    let mut socket = SignalSocket::new("alice".to_owned());
    let first = socket.started(&mut router, 1);
    assert_eq!(first, Some(Signal::assign("alice".to_owned())));
    assert_eq!(socket.state(), SessionState::Joined);
    assert_eq!(router.target("alice"), Some(&1));
}

#[test]
fn started_with_a_taken_name_reports_it_and_starts_closing() {
    let mut router: SignalRouter<u8> = SignalRouter::new();
    router
        .handle_join(JoinMessage::new("alice".to_owned(), 1))
        .unwrap();
    let mut socket = SignalSocket::new("alice".to_owned());
    let first = socket.started(&mut router, 2);
    assert_eq!(
        first,
        Some(Signal::Error(Error::UserAlreadyJoined("alice".to_owned())))
    );
    assert_eq!(socket.state(), SessionState::Closing);
    assert_eq!(router.target("alice"), Some(&1));
}

#[test]
fn started_happens_once() {
    let mut router: SignalRouter<u8> = SignalRouter::new();
    let mut socket = SignalSocket::new("alice".to_owned());
    socket.started(&mut router, 1);
    assert_eq!(socket.started(&mut router, 2), None);
    assert_eq!(socket.state(), SessionState::Joined);
    assert_eq!(router.target("alice"), Some(&1));
}

#[test]
fn open_joins_and_tells_the_peer_its_name() {
    let mut router = SignalRouter::new();
    let (handle, mut inbox) = channel(16);
    let mut socket = SignalSocket::new("alice".to_owned());
    assert_eq!(socket.open(&mut router, handle), None);
    assert_eq!(socket.state(), SessionState::Joined);
    assert!(router.contains("alice"));
    assert_eq!(inbox.try_recv(), Ok(Signal::assign("alice".to_owned())));
    assert_eq!(inbox.try_recv(), Err(TryRecvError::Empty));

    let (second_handle, mut second_inbox) = channel(16);
    let mut second = SignalSocket::new("alice".to_owned());
    assert_eq!(
        second.open(&mut router, second_handle),
        Some(Signal::Error(Error::UserAlreadyJoined("alice".to_owned())))
    );
    assert_eq!(second.state(), SessionState::Closing);
    assert_eq!(second_inbox.try_recv(), Err(TryRecvError::Closed));
    assert_eq!(inbox.try_recv(), Err(TryRecvError::Empty));
    assert_eq!(router.len(), 1);

    let (third_handle, _third_inbox) = channel(16);
    assert_eq!(socket.open(&mut router, third_handle), None);
    assert_eq!(socket.state(), SessionState::Joined);
    assert_eq!(inbox.try_recv(), Err(TryRecvError::Empty));
}

#[test]
fn a_session_lives_from_connecting_to_closed() {
    let mut router = SignalRouter::new();
    let (handle, mut inbox) = channel(16);
    let mut alice = SignalSocket::new("alice".to_owned());
    assert_eq!(alice.state(), SessionState::Connecting);
    assert_eq!(alice.open(&mut router, handle), None);
    assert_eq!(alice.state(), SessionState::Joined);
    let assign = inbox.try_recv().unwrap();
    assert_eq!(
        alice.outbound(&assign),
        Some(r#"{"type":"assign","name":"alice"}"#.to_owned())
    );
    assert!(!alice.handle_msg(&router, Inbound::Failed));
    assert_eq!(alice.state(), SessionState::Closing);
    alice.stopped(&mut router);
    assert_eq!(alice.state(), SessionState::Closed);
    assert_eq!(router.len(), 0);

    let (handle, _inbox) = channel(16);
    let mut newcomer = SignalSocket::new("alice".to_owned());
    assert_eq!(newcomer.open(&mut router, handle), None);
    assert_eq!(newcomer.state(), SessionState::Joined);
}

#[test]
fn an_offer_reaches_its_target_and_nobody_else() {
    let mut router = SignalRouter::new();
    let (mut a, mut a_inbox) = join(&mut router, "A");
    let (b, mut b_inbox) = join(&mut router, "B");
    let (_c, mut c_inbox) = join(&mut router, "C");

    let frame = r#"{"type":"offer","target":"B","name":"A","sdp":"x"}"#;
    assert!(a.handle_msg(&router, Inbound::Text(frame.to_owned())));

    let delivered = b_inbox.try_recv().unwrap();
    assert_eq!(delivered, offer("A", "B", "x"));
    assert_eq!(
        b.outbound(&delivered),
        Some(r#"{"type":"offer","name":"A","target":"B","sdp":"x"}"#.to_owned())
    );
    assert_eq!(b_inbox.try_recv(), Err(TryRecvError::Empty));
    assert_eq!(a_inbox.try_recv(), Err(TryRecvError::Empty));
    assert_eq!(c_inbox.try_recv(), Err(TryRecvError::Empty));
    assert_eq!(a.state(), SessionState::Joined);
}

#[test]
fn an_offer_to_an_unknown_target_is_reported_to_the_sender_alone() {
    let mut router = SignalRouter::new();
    let (mut a, mut a_inbox) = join(&mut router, "A");
    let (_b, mut b_inbox) = join(&mut router, "B");

    let frame = r#"{"type":"offer","target":"ghost","name":"A","sdp":"x"}"#;
    assert!(a.handle_msg(&router, Inbound::Text(frame.to_owned())));

    let reported = a_inbox.try_recv().unwrap();
    assert_eq!(
        reported,
        Signal::Error(Error::TargetNotFound("ghost".to_owned()))
    );
    assert_eq!(
        a.outbound(&reported),
        Some(r#"{"type":"error","kind":"target_not_found","detail":"ghost"}"#.to_owned())
    );
    assert_eq!(a_inbox.try_recv(), Err(TryRecvError::Empty));
    assert_eq!(b_inbox.try_recv(), Err(TryRecvError::Empty));
    assert_eq!(a.state(), SessionState::Joined);
}

#[test]
fn a_malformed_frame_is_reported_and_the_connection_stays_open() {
    let mut router = SignalRouter::new();
    let (mut a, mut a_inbox) = join(&mut router, "A");
    let (_b, mut b_inbox) = join(&mut router, "B");

    let without_type = r#"{"target":"B","name":"A","sdp":"x"}"#;
    assert!(a.handle_msg(&router, Inbound::Text(without_type.to_owned())));
    assert_eq!(
        a_inbox.try_recv(),
        Ok(Signal::Error(Error::ParseError(
            "missing field `type`".to_owned()
        )))
    );

    let unknown = r#"{"type":"shout","target":"B","name":"A","sdp":"x"}"#;
    assert!(a.handle_msg(&router, Inbound::Text(unknown.to_owned())));
    assert_eq!(
        a_inbox.try_recv(),
        Ok(Signal::Error(Error::ParseError(
            "invalid value: string \"shout\", expected offer, answer, new_ice_candidate, assign, error, connected_list".to_owned()
        )))
    );
    assert_eq!(a_inbox.try_recv(), Err(TryRecvError::Empty));
    assert_eq!(b_inbox.try_recv(), Err(TryRecvError::Empty));
    assert_eq!(a.state(), SessionState::Joined);

    let valid = r#"{"type":"offer","target":"B","name":"A","sdp":"x"}"#;
    assert!(a.handle_msg(&router, Inbound::Text(valid.to_owned())));
    assert_eq!(b_inbox.try_recv(), Ok(offer("A", "B", "x")));
    assert_eq!(a_inbox.try_recv(), Err(TryRecvError::Empty));
}

#[test]
fn a_target_that_is_gone_is_reported_as_connection_closed() {
    let mut router = SignalRouter::new();
    let (mut a, mut a_inbox) = join(&mut router, "A");
    let (_b, b_inbox) = join(&mut router, "B");
    drop(b_inbox);

    let frame = r#"{"type":"offer","target":"B","name":"A","sdp":"x"}"#;
    assert!(a.handle_msg(&router, Inbound::Text(frame.to_owned())));
    assert_eq!(a_inbox.try_recv(), Ok(Signal::Error(Error::ConnectionClosed)));
    assert_eq!(a_inbox.try_recv(), Err(TryRecvError::Empty));
}

#[test]
fn server_only_signals_from_a_peer_are_accepted_silently() {
    let mut router = SignalRouter::new();
    let (mut a, mut a_inbox) = join(&mut router, "A");
    let (_b, mut b_inbox) = join(&mut router, "B");
    for frame in [
        r#"{"type":"assign","name":"B"}"#,
        r#"{"type":"error","kind":"target_not_found","detail":"B"}"#,
        r#"{"type":"connected_list","names":["B"]}"#,
    ] {
        assert!(a.handle_msg(&router, Inbound::Text(frame.to_owned())));
    }
    assert_eq!(a_inbox.try_recv(), Err(TryRecvError::Empty));
    assert_eq!(b_inbox.try_recv(), Err(TryRecvError::Empty));
    assert_eq!(a.state(), SessionState::Joined);
}

#[test]
fn a_binary_frame_is_answered_with_service_unavailable() {
    let mut router = SignalRouter::new();
    let (mut a, mut a_inbox) = join(&mut router, "A");
    assert!(a.handle_msg(&router, Inbound::Binary));
    assert_eq!(a_inbox.try_recv(), Ok(Signal::Error(Error::ServiceUnavailable)));
    assert_eq!(a.state(), SessionState::Joined);
}

#[test]
fn other_frames_are_passed_over() {
    let mut router: SignalRouter<u8> = SignalRouter::new();
    let mut a = SignalSocket::new("A".to_owned());
    a.started(&mut router, 1);
    assert!(is_idle(&a.handle(&router, Inbound::Other)));
    assert_eq!(a.state(), SessionState::Joined);
}

#[test]
fn a_close_frame_or_a_transport_failure_starts_closing() {
    let mut router: SignalRouter<u8> = SignalRouter::new();
    let mut a = SignalSocket::new("A".to_owned());
    a.started(&mut router, 1);
    assert!(is_stop(&a.handle(&router, Inbound::Close)));
    assert_eq!(a.state(), SessionState::Closing);

    let mut b = SignalSocket::new("B".to_owned());
    b.started(&mut router, 2);
    assert!(is_stop(&b.handle(&router, Inbound::Failed)));
    assert_eq!(b.state(), SessionState::Closing);

    let valid = r#"{"type":"offer","target":"A","name":"B","sdp":"x"}"#;
    assert!(is_stop(&b.handle(&router, Inbound::Text(valid.to_owned()))));
    assert_eq!(b.state(), SessionState::Closing);
}

#[test]
fn a_session_that_has_not_joined_receives_nothing() {
    let router: SignalRouter<u8> = SignalRouter::new();
    let mut a = SignalSocket::new("A".to_owned());
    assert!(is_stop(&a.handle(&router, Inbound::Other)));
    assert_eq!(a.state(), SessionState::Connecting);
}

#[test]
fn handle_says_what_to_forward_and_where() {
    let mut router: SignalRouter<u8> = SignalRouter::new();
    let mut a = SignalSocket::new("A".to_owned());
    a.started(&mut router, 1);
    let mut b = SignalSocket::new("B".to_owned());
    b.started(&mut router, 2);

    let frame = r#"{"type":"offer","target":"B","name":"A","sdp":"x"}"#;
    match a.handle(&router, Inbound::Text(frame.to_owned())) {
        Reaction::Forward(handle, signal) => {
            assert_eq!(*handle, 2);
            assert_eq!(signal, offer("A", "B", "x"));
        }
        _ => panic!("expected the offer to be forwarded"),
    }
    let frame = r#"{"type":"offer","target":"ghost","name":"A","sdp":"x"}"#;
    match a.handle(&router, Inbound::Text(frame.to_owned())) {
        Reaction::Reply(signal) => {
            assert_eq!(signal, Signal::Error(Error::TargetNotFound("ghost".to_owned())));
        }
        _ => panic!("expected a reply"),
    }
}

#[test]
fn delivery_reply_reports_a_failed_delivery() {
    assert_eq!(SignalSocket::delivery_reply(Ok(())), None);
    assert_eq!(
        SignalSocket::delivery_reply(Err(MailboxError::Closed)),
        Some(Signal::Error(Error::ConnectionClosed))
    );
    assert_eq!(
        SignalSocket::delivery_reply(Err(MailboxError::Timeout)),
        Some(Signal::Error(Error::ConnectionTimeout))
    );
}

#[test]
fn stopped_releases_the_name() {
    let mut router = SignalRouter::new();
    let (mut alice, _inbox) = join(&mut router, "alice");
    assert!(!alice.handle_msg(&router, Inbound::Close));
    alice.stopped(&mut router);
    assert_eq!(alice.state(), SessionState::Closed);
    assert!(!router.contains("alice"));

    let (again, _inbox) = join(&mut router, "alice");
    assert_eq!(again.state(), SessionState::Joined);
    assert!(router.contains("alice"));
}

#[test]
fn stopped_twice_releases_once() {
    let mut router = SignalRouter::new();
    let (mut alice, _old_inbox) = join(&mut router, "alice");
    alice.stopped(&mut router);
    let (_again, _inbox) = join(&mut router, "alice");
    alice.stopped(&mut router);
    assert_eq!(alice.state(), SessionState::Closed);
    assert!(router.contains("alice"));
}

#[test]
fn outbound_writes_one_frame_per_signal_while_joined() {
    let mut router: SignalRouter<u8> = SignalRouter::new();
    let mut a = SignalSocket::new("A".to_owned());
    assert_eq!(a.outbound(&Signal::assign("A".to_owned())), None);
    a.started(&mut router, 1);
    assert_eq!(
        a.outbound(&Signal::assign("A".to_owned())),
        Some(r#"{"type":"assign","name":"A"}"#.to_owned())
    );
    a.write_failed();
    assert_eq!(a.state(), SessionState::Closing);
    assert_eq!(a.outbound(&Signal::assign("A".to_owned())), None);
    a.write_failed();
    assert_eq!(a.state(), SessionState::Closing);
}

#[test]
fn push_goes_through_the_own_handle() {
    let mut router = SignalRouter::new();
    let (a, mut a_inbox) = join(&mut router, "A");
    assert!(a.push(&router, Signal::assign("A".to_owned())));
    assert_eq!(a_inbox.try_recv(), Ok(Signal::assign("A".to_owned())));
    assert!(a.error_handler(&router, Error::ServiceTimeout));
    assert_eq!(a_inbox.try_recv(), Ok(Signal::Error(Error::ServiceTimeout)));
    let stranger = SignalSocket::new("stranger".to_owned());
    assert!(!stranger.push(&router, Signal::assign("stranger".to_owned())));
}

#[test]
fn service_failures_become_service_errors() {
    assert_eq!(
        into_service_related_error::<()>(MailboxError::Closed),
        Err(Error::ServiceUnavailable)
    );
    assert_eq!(
        into_service_related_error::<()>(MailboxError::Timeout),
        Err(Error::ServiceTimeout)
    );
}

#[test]
fn error_message_has_a_label_and_a_sentence() {
    let shown = ErrorMessage::from(Error::TargetNotFound("ghost".to_owned()));
    assert_eq!(shown.kind, "target user not found");
    assert_eq!(shown.message, "user ghost is not in connection");
    let shown = ErrorMessage::from(Error::UserAlreadyJoined("alice".to_owned()));
    assert_eq!(shown.kind, "user already joined");
    assert_eq!(shown.message, "User 'alice' already joined");
    let shown = ErrorMessage::from(Error::ParseError("bad".to_owned()));
    assert_eq!((shown.kind, shown.message.as_str()), ("parse error", "bad"));
    let shown = ErrorMessage::from(Error::ConnectionClosed);
    assert_eq!(
        (shown.kind, shown.message.as_str()),
        ("connection closed", "target user's connection is closed")
    );
    let shown = ErrorMessage::from(Error::ConnectionTimeout);
    assert_eq!(
        (shown.kind, shown.message.as_str()),
        ("timeout", "timeout occurres during send message to target user")
    );
    let shown = ErrorMessage::from(Error::ServiceUnavailable);
    assert_eq!(
        (shown.kind, shown.message.as_str()),
        (
            "service unavailable",
            "service is unavailable, please contact to service provider"
        )
    );
    let shown = ErrorMessage::from(Error::ServiceTimeout);
    assert_eq!(
        (shown.kind, shown.message.as_str()),
        ("service timeout", "service is busy. try after")
    );
}
