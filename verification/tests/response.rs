use yahoo_finance_api::exchange::{
    choose_status_text, describe_status, status_is_redirection, status_is_success,
};
use yahoo_finance_api::quote_summary::expect_single_result;
use yahoo_finance_api::request::{accept_document, read_response};
use yahoo_finance_api::YahooError;

#[test]
fn response_with_status_200_is_parsed() {
    let document = read_response(200, "{\"chart\": {\"result\": [1, 2, 3]}}").unwrap();
    let result = document.get("chart").and_then(|chart| chart.get("result")).unwrap();
    assert_eq!(result.as_array().unwrap().len(), 3);
    assert_eq!(result.get(1).and_then(|item| item.as_i64()), Some(2));
}

#[test]
fn body_that_is_no_json_fails_to_deserialize() {
    assert!(matches!(read_response(200, "<html>"), Err(YahooError::DeserializeFailed(_))));
    assert!(matches!(read_response(200, ""), Err(YahooError::DeserializeFailed(_))));
}

#[test]
fn other_statuses_fail_the_fetch() {
    match read_response(404, "{\"ok\": true}") {
        Err(YahooError::FetchFailed(text)) => {
            assert_eq!(text, "status 404 Not Found, response: {\"ok\": true}")
        }
        other => panic!("unexpected {:?}", other),
    }
    match read_response(201, "") {
        Err(YahooError::FetchFailed(text)) => assert_eq!(text, "status 201 Created, response: "),
        other => panic!("unexpected {:?}", other),
    }
    match read_response(429, "Too Many Requests") {
        Err(YahooError::FetchFailed(text)) => {
            assert_eq!(text, "status 429 Too Many Requests, response: Too Many Requests")
        }
        other => panic!("unexpected {:?}", other),
    }
}

#[test]
fn parser_outcome_is_passed_on() {
    let parsed = serde_json::from_str::<serde_json::Value>("[true]");
    let document = accept_document(parsed).unwrap();
    assert_eq!(document.get(0).and_then(|item| item.as_bool()), Some(true));
    let parsed = serde_json::from_str::<serde_json::Value>("[true");
    assert!(matches!(accept_document(parsed), Err(YahooError::DeserializeFailed(_))));
}

#[test]
fn quote_summary_has_exactly_one_result() {
    assert!(expect_single_result(Some(1)).is_ok());
    match expect_single_result(Some(0)) {
        Err(YahooError::FetchFailed(text)) => {
            assert_eq!(text, "Expecting exactly 1 result but got 0")
        }
        other => panic!("unexpected {:?}", other),
    }
    match expect_single_result(Some(12)) {
        Err(YahooError::FetchFailed(text)) => {
            assert_eq!(text, "Expecting exactly 1 result but got 12")
        }
        other => panic!("unexpected {:?}", other),
    }
    match expect_single_result(None) {
        Err(YahooError::FetchFailed(text)) => {
            assert_eq!(text, "quoteSummary.result not found in the response JSON")
        }
        other => panic!("unexpected {:?}", other),
    }
}

#[test]
fn statuses_are_written_with_their_reason() {
    assert_eq!(describe_status(200), "200 OK");
    assert_eq!(describe_status(403), "403 Forbidden");
    assert_eq!(describe_status(599), "599 <unknown status code>");
    // numbers that are no status stand for themselves
    assert_eq!(describe_status(99), "99");
    assert_eq!(describe_status(0), "0");
    assert_eq!(describe_status(1000), "1000");
    assert_eq!(choose_status_text(Some("written".to_string()), 7), "written");
    assert_eq!(choose_status_text(None, 7), "7");
    match read_response(42, "x") {
        Err(YahooError::FetchFailed(text)) => assert_eq!(text, "status 42, response: x"),
        other => panic!("unexpected {:?}", other),
    }
}

#[test]
fn statuses_fall_into_their_classes() {
    for status in [200u16, 201, 204, 299] {
        assert!(status_is_success(status));
        assert!(!status_is_redirection(status));
    }
    for status in [0u16, 100, 199, 300, 404, 429, 500, u16::MAX] {
        assert!(!status_is_success(status));
    }
    for status in [300u16, 302, 399] {
        assert!(status_is_redirection(status));
    }
    for status in [299u16, 400] {
        assert!(!status_is_redirection(status));
    }
}
