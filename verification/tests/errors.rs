use bus_history::config::{credential, default_watch_list};
use bus_history::error::{ApiError, Error, HistoryError};

#[test]
fn transport_error_message() {
    let e = Error::Transport("connection refused".to_string());
    assert_eq!(e.message(), "Cat reqwest error: connection refused");
}

#[test]
fn parse_error_message_is_the_decoders() {
    let e = Error::Parse("missing field `entity`".to_string());
    assert_eq!(e.message(), "missing field `entity`");
}

#[test]
fn rate_limited_error_message() {
    let e = Error::RateLimited("Rate limit exceeded".to_string());
    assert_eq!(e.message(), "Rate limited: Rate limit exceeded");
}

#[test]
fn config_error_message() {
    assert_eq!(Error::Config.message(), "no api key found");
}

#[test]
fn every_error_is_answered_with_the_generic_failure_status() {
    let all = vec![
        Error::Transport("t".to_string()),
        Error::Parse("p".to_string()),
        Error::RateLimited("r".to_string()),
        Error::Config,
    ];
    for e in all.iter() {
        assert_eq!(e.status_code(), 500);
    }
}

#[test]
fn error_clone_keeps_kind_and_message() {
    let e = Error::RateLimited("slow down".to_string());
    match e.clone() {
        Error::RateLimited(m) => assert_eq!(m, "slow down"),
        other => panic!("unexpected {:?}", other),
    }
    assert!(matches!(Error::Config.clone(), Error::Config));
    assert!(matches!(Error::Transport("x".to_string()).clone(), Error::Transport(m) if m == "x"));
    assert!(matches!(Error::Parse("y".to_string()).clone(), Error::Parse(m) if m == "y"));
}

#[test]
fn history_error_messages() {
    assert_eq!(HistoryError::InvalidRange.message(), "invalid range");
    assert_eq!(HistoryError::NotFound.message(), "record not found");
}

#[test]
fn api_error_statuses() {
    assert_eq!(ApiError(HistoryError::InvalidRange).status_code(), 400);
    assert_eq!(ApiError(HistoryError::NotFound).status_code(), 404);
}

#[test]
fn api_error_body_is_the_message() {
    assert_eq!(ApiError(HistoryError::InvalidRange).body(), "invalid range");
    assert_eq!(ApiError(HistoryError::NotFound).body(), "record not found");
}

#[test]
fn api_error_from_history_error() {
    let e: ApiError = HistoryError::NotFound.into();
    assert_eq!(e, ApiError(HistoryError::NotFound));
    assert_eq!(ApiError::from(HistoryError::InvalidRange).0, HistoryError::InvalidRange);
}

#[test]
fn credential_present_is_handed_on() {
    match credential(Some("k-123".to_string())) {
        Ok(key) => assert_eq!(key, "k-123"),
        Err(e) => panic!("unexpected {:?}", e),
    }
}

#[test]
fn credential_missing_is_a_config_error() {
    assert!(matches!(credential(None), Err(Error::Config)));
}

#[test]
fn empty_credential_is_still_a_credential() {
    assert!(matches!(credential(Some(String::new())), Ok(key) if key.is_empty()));
}

#[test]
fn default_watch_list_names_two_routes() {
    assert_eq!(default_watch_list(), vec!["212".to_string(), "215".to_string()]);
}
