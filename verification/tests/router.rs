use signal_relay::error::Error;
use signal_relay::mailbox::MailboxError;
use signal_relay::signal::{IceCandidate, SessionDescriptionMessage, Signal};
use signal_relay::signal_router::{
    delivered, into_target_related_error, ExitMessage, JoinMessage, SignalMessage, SignalRouter,
};
use std::sync::{Arc, Mutex};
use tokio::sync::broadcast::error::TryRecvError;
use tokio::sync::broadcast::{channel, Receiver, Sender};

fn caller_name() -> &'static str {
    "caller"
}

fn callee_name() -> &'static str {
    "callee"
}

struct RouteTestingEnvironment {
    router: SignalRouter<Sender<Signal>>,
    caller: Receiver<Signal>,
    callee: Receiver<Signal>,
}

fn route_testing_environment() -> RouteTestingEnvironment {
    let mut router = SignalRouter::default();
    let (caller_handle, caller) = channel(16);
    let (callee_handle, callee) = channel(16);
    router
        .handle_join(JoinMessage::new(caller_name().to_owned(), caller_handle))
        .expect("failed to join");
    router
        .handle_join(JoinMessage::new(callee_name().to_owned(), callee_handle))
        .expect("failed to join");
    RouteTestingEnvironment { router, caller, callee }
}

fn offer(name: &str, target: &str, sdp: &str) -> Signal {
    Signal::Offer(SessionDescriptionMessage {
        target: target.to_owned(),
        name: name.to_owned(),
        sdp: sdp.to_owned(),
    })
}

#[test]
fn test_messaging() {
    let testing_env = route_testing_environment();
    let signal_text = format!(
        "{{\"type\":\"offer\",\"name\":\"{}\",\"target\":\"{}\",\"sdp\":\"dummy sdp\"}}",
        caller_name(),
        callee_name()
    );
    let offer_signal = Signal::deserialize(&signal_text).unwrap();

    let signal_result = testing_env
        .router
        .route(SignalMessage::from(offer_signal.clone()));

    assert!(signal_result.is_ok());
    assert_eq!(signal_result, Ok(()));
}

#[test]
fn test_routing() {
    let mut testing_env = route_testing_environment();
    let signal_text = format!(
        "{{\"type\":\"offer\",\"name\":\"{}\",\"target\":\"{}\",\"sdp\":\"dummy sdp\"}}",
        caller_name(),
        callee_name()
    );
    let offer_signal = Signal::deserialize(&signal_text).unwrap();

    testing_env
        .router
        .route(SignalMessage::from(offer_signal.clone()))
        .unwrap();

    let resolved_signal = testing_env.callee.try_recv().ok();
    assert!(resolved_signal.is_some());
    assert_eq!(&offer_signal, resolved_signal.as_ref().unwrap());
    assert_eq!(testing_env.callee.try_recv(), Err(TryRecvError::Empty));
    assert_eq!(testing_env.caller.try_recv(), Err(TryRecvError::Empty));
}

#[test]
fn route_delivers_answers_and_candidates_to_their_target() {
    let mut env = route_testing_environment();
    let answer = Signal::Answer(SessionDescriptionMessage {
        target: caller_name().to_owned(),
        name: callee_name().to_owned(),
        sdp: "answer sdp".to_owned(),
    });
    let candidate = Signal::NewIceCandidate(IceCandidate {
        target: caller_name().to_owned(),
        candidate: "candidate".to_owned(),
        name: callee_name().to_owned(),
    });
    assert_eq!(env.router.route(SignalMessage::from(answer.clone())), Ok(()));
    assert_eq!(env.router.route(SignalMessage::from(candidate.clone())), Ok(()));
    assert_eq!(env.caller.try_recv(), Ok(answer));
    assert_eq!(env.caller.try_recv(), Ok(candidate));
    assert_eq!(env.caller.try_recv(), Err(TryRecvError::Empty));
    assert_eq!(env.callee.try_recv(), Err(TryRecvError::Empty));
}

#[test]
fn route_to_an_unknown_target_fails_with_target_not_found() {
    let mut env = route_testing_environment();
    let result = env
        .router
        .route(SignalMessage::from(offer(caller_name(), "ghost", "x")));
    assert_eq!(result, Err(Error::TargetNotFound("ghost".to_owned())));
    assert_eq!(env.caller.try_recv(), Err(TryRecvError::Empty));
    assert_eq!(env.callee.try_recv(), Err(TryRecvError::Empty));
}

#[test]
fn route_to_a_closed_handle_fails_with_connection_closed() {
    let env = route_testing_environment();
    let RouteTestingEnvironment { router, caller, callee } = env;
    drop(callee);
    let result = router.route(SignalMessage::from(offer(caller_name(), callee_name(), "x")));
    assert_eq!(result, Err(Error::ConnectionClosed));
    drop(caller);
}

#[test]
fn route_accepts_server_only_signals_and_sends_nothing() {
    let mut env = route_testing_environment();
    assert_eq!(
        env.router
            .route(SignalMessage::from(Signal::assign(callee_name().to_owned()))),
        Ok(())
    );
    assert_eq!(
        env.router.route(SignalMessage::from(Signal::Error(
            Error::TargetNotFound(callee_name().to_owned())
        ))),
        Ok(())
    );
    assert_eq!(
        env.router.route(SignalMessage::from(Signal::ConnectedList(vec![
            callee_name().to_owned()
        ]))),
        Ok(())
    );
    assert_eq!(env.caller.try_recv(), Err(TryRecvError::Empty));
    assert_eq!(env.callee.try_recv(), Err(TryRecvError::Empty));
}

#[test]
fn signals_to_one_target_arrive_in_the_order_they_were_routed() {
    let mut env = route_testing_environment();
    for sdp in ["1", "2", "3"] {
        env.router
            .route(SignalMessage::from(offer(caller_name(), callee_name(), sdp)))
            .unwrap();
    }
    for sdp in ["1", "2", "3"] {
        assert_eq!(
            env.callee.try_recv(),
            Ok(offer(caller_name(), callee_name(), sdp))
        );
    }
}

#[test]
fn handle_join_refuses_a_registered_name() {
    let mut router: SignalRouter<u8> = SignalRouter::new();
    assert_eq!(router.handle_join(JoinMessage::new("alice".to_owned(), 1)), Ok(()));
    assert_eq!(
        router.handle_join(JoinMessage::new("alice".to_owned(), 2)),
        Err(Error::UserAlreadyJoined("alice".to_owned()))
    );
    assert_eq!(router.target("alice"), Some(&1));
    assert_eq!(
        router.connected_list(),
        Signal::ConnectedList(vec!["alice".to_owned()])
    );
}

#[test]
fn of_many_concurrent_joins_under_one_name_exactly_one_succeeds() {
    let router: Arc<Mutex<SignalRouter<usize>>> = Arc::new(Mutex::new(SignalRouter::new()));
    let runtime = tokio::runtime::Builder::new_multi_thread()
        .worker_threads(4)
        .build()
        .unwrap();
    let outcomes: Vec<Result<(), Error>> = runtime.block_on(async {
        let mut tasks = Vec::new();
        for contender in 0..32usize {
            let router = Arc::clone(&router);
            tasks.push(tokio::spawn(async move {
                router
                    .lock()
                    .unwrap()
                    .handle_join(JoinMessage::new("alice".to_owned(), contender))
            }));
        }
        let mut outcomes = Vec::new();
        for task in tasks {
            outcomes.push(task.await.unwrap());
        }
        outcomes
    });
    let winners: Vec<usize> = (0..32usize).filter(|i| outcomes[*i].is_ok()).collect();
    assert_eq!(winners.len(), 1);
    for (contender, outcome) in outcomes.iter().enumerate() {
        if contender != winners[0] {
            assert_eq!(
                outcome,
                &Err(Error::UserAlreadyJoined("alice".to_owned()))
            );
        }
    }
    let router = router.lock().unwrap();
    assert_eq!(router.snapshot_names(), vec!["alice".to_owned()]);
    assert_eq!(router.target("alice"), Some(&winners[0]));
}

#[test]
fn handle_exit_releases_the_name_and_may_be_repeated() {
    let mut router: SignalRouter<u8> = SignalRouter::new();
    router
        .handle_join(JoinMessage::new("alice".to_owned(), 1))
        .unwrap();
    router.handle_exit(ExitMessage::from("alice".to_owned()));
    assert!(!router.contains("alice"));
    router.handle_exit(ExitMessage::from("alice".to_owned()));
    assert!(!router.contains("alice"));
    assert_eq!(router.target("alice"), None);
    assert_eq!(router.handle_join(JoinMessage::new("alice".to_owned(), 2)), Ok(()));
    assert_eq!(router.target("alice"), Some(&2));
}

#[test]
fn resolve_says_where_a_signal_goes() {
    let mut router: SignalRouter<u8> = SignalRouter::new();
    router
        .handle_join(JoinMessage::new("B".to_owned(), 7))
        .unwrap();
    assert_eq!(router.resolve(&offer("A", "B", "x")), Ok(Some(&7)));
    assert_eq!(
        router.resolve(&offer("A", "ghost", "x")),
        Err(Error::TargetNotFound("ghost".to_owned()))
    );
    assert_eq!(router.resolve(&Signal::assign("A".to_owned())), Ok(None));
}

#[test]
fn delivery_outcomes_become_errors_of_the_target() {
    assert_eq!(delivered(Ok(())), Ok(()));
    assert_eq!(delivered(Err(MailboxError::Closed)), Err(Error::ConnectionClosed));
    assert_eq!(delivered(Err(MailboxError::Timeout)), Err(Error::ConnectionTimeout));
    assert_eq!(
        into_target_related_error::<()>(MailboxError::Closed),
        Err(Error::ConnectionClosed)
    );
    assert_eq!(
        into_target_related_error::<u8>(MailboxError::Timeout),
        Err(Error::ConnectionTimeout)
    );
}

#[test]
fn announce_sends_the_connected_list_to_everyone() {
    let mut env = route_testing_environment();
    assert_eq!(env.router.announce(), 2);
    let list = Signal::ConnectedList(vec![caller_name().to_owned(), callee_name().to_owned()]);
    assert_eq!(env.caller.try_recv(), Ok(list.clone()));
    assert_eq!(env.callee.try_recv(), Ok(list));
    drop(env.callee);
    assert_eq!(env.router.announce(), 1);
}
