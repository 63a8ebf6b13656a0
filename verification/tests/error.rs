use signal_relay::error::Error;

fn every_error() -> Vec<Error> {
    vec![
        Error::ParseError("detail".to_owned()),
        Error::ConnectionClosed,
        Error::ConnectionTimeout,
        Error::TargetNotFound("ghost".to_owned()),
        Error::ServiceUnavailable,
        Error::ServiceTimeout,
        Error::UserAlreadyJoined("alice".to_owned()),
    ]
}

#[test]
fn error_to_text_names_the_variant() {
    let texts: Vec<String> = every_error().iter().map(|e| e.to_text()).collect();
    assert_eq!(
        texts,
        vec![
            "ParseError(detail)",
            "ConnectionClosed",
            "ConnectionTimeout",
            "TargetNotFound(target_user_name: ghost)",
            "ServiceUnavailable",
            "ServiceTemporaryUnavailable",
            "UserAlreadyJoined(alice)",
        ]
    );
}

#[test]
fn error_kind_is_the_variant_in_snake_case() {
    let kinds: Vec<&str> = every_error().iter().map(|e| e.kind()).collect();
    assert_eq!(
        kinds,
        vec![
            "parse_error",
            "connection_closed",
            "connection_timeout",
            "target_not_found",
            "service_unavailable",
            "service_timeout",
            "user_already_joined",
        ]
    );
}

#[test]
fn error_detail_is_the_payload_or_a_sentence() {
    let details: Vec<String> = every_error().iter().map(|e| e.detail()).collect();
    assert_eq!(
        details,
        vec![
            "detail",
            "target user's connection is closed",
            "timeout occurres during send message to target user",
            "ghost",
            "service is unavailable, please contact to service provider",
            "service is busy. try after",
            "alice",
        ]
    );
}

#[test]
fn kind_and_detail_give_the_error_back() {
    for error in every_error() {
        assert_eq!(
            Error::from_parts(error.kind(), error.detail()),
            Some(error)
        );
    }
    assert_eq!(Error::from_parts("ParseError", "x".to_owned()), None);
    assert_eq!(Error::from_parts("", "x".to_owned()), None);
}
