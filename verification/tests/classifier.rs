use yahoo_finance_api::{TransportFailure, YahooError};

fn failure(connect: bool, status: Option<u16>) -> TransportFailure {
    TransportFailure { connect, status, message: "transport said no".to_string() }
}

#[test]
fn status_429_is_too_many_requests() {
    let error = YahooError::from_wreq_while(failure(false, Some(429)), "obtaining the crumb");
    match error {
        YahooError::TooManyRequests(action, cause) => {
            assert_eq!(action, "obtaining the crumb");
            assert_eq!(cause.status, Some(429));
            assert_eq!(cause.message, "transport said no");
        }
        other => panic!("unexpected {:?}", other),
    }
}

#[test]
fn failed_connection_is_connection_failed() {
    let error = YahooError::from_wreq_while(failure(true, None), "obtaining the crumb");
    match error {
        YahooError::ConnectionFailed(cause) => {
            assert!(cause.connect);
            assert_eq!(cause.message, "transport said no");
        }
        other => panic!("unexpected {:?}", other),
    }
}

#[test]
fn connection_failure_comes_before_the_status() {
    let error = YahooError::from_wreq_while(failure(true, Some(429)), "x");
    assert!(matches!(error, YahooError::ConnectionFailed(_)));
}

#[test]
fn other_statuses_are_unexpected_responses() {
    for status in [Some(400u16), Some(404), Some(428), Some(430), Some(500), Some(503), None] {
        let error = YahooError::from_wreq_while(failure(false, status), "sending the consent");
        match error {
            YahooError::UnexpectedResponse(action, cause) => {
                assert_eq!(action, "sending the consent");
                assert_eq!(cause.status, status);
            }
            other => panic!("unexpected {:?}", other),
        }
    }
}

#[test]
fn messages_name_the_action_and_the_cause() {
    let error = YahooError::from_wreq_while(failure(false, Some(429)), "obtaining the crumb");
    assert_eq!(
        error.message(),
        "server reports too many requests while obtaining the crumb: transport said no"
    );
    let error = YahooError::from_wreq_while(failure(false, Some(500)), "obtaining the crumb");
    assert_eq!(
        error.message(),
        "unexpected response while obtaining the crumb: transport said no"
    );
    let error = YahooError::from_wreq_while(failure(true, None), "obtaining the crumb");
    assert_eq!(error.message(), "connection to yahoo! finance server failed: transport said no");
}

#[test]
fn messages_of_the_plain_kinds() {
    assert_eq!(
        YahooError::FetchFailed("nothing there".to_string()).message(),
        "fetching the data from yahoo! finance failed: nothing there"
    );
    assert_eq!(YahooError::InvalidJson.message(), "yahoo! finance return invalid JSON format");
    assert_eq!(YahooError::EmptyDataSet.message(), "yahoo! finance returned an empty data set");
    assert_eq!(
        YahooError::DataInconsistency.message(),
        "yahoo! finance returned inconsistent data"
    );
    assert_eq!(YahooError::BuilderFailed.message(), "construcing yahoo! finance client failed");
    assert_eq!(
        YahooError::MaxRetriesReached(10, Box::new(YahooError::EmptyDataSet)).message(),
        "request didn't succeed in 10 retries"
    );
    assert_eq!(
        YahooError::ExtractionFailed("no token".to_string()).message(),
        "reading the consent page failed: no token"
    );
    assert_eq!(
        YahooError::BuildFailed("bad path".to_string()).message(),
        "building the request URL failed: bad path"
    );
}

#[test]
fn message_of_a_parser_error_quotes_the_parser() {
    let cause = serde_json::from_str::<serde_json::Value>("{").unwrap_err();
    let account = cause.to_string();
    assert!(!account.is_empty());
    let error = YahooError::from(cause);
    assert!(matches!(error, YahooError::DeserializeFailed(_)));
    assert_eq!(
        error.message(),
        format!("deserializing response from yahoo! finance failed: {}", account)
    );
    assert_eq!(
        error.describe_with("told otherwise"),
        "deserializing response from yahoo! finance failed: told otherwise"
    );
}
