use yahoo_finance_api::consent::{
    consent_from, get_collect_consent_payload, scrape, Consent, Negotiation, NegotiatorAction,
};
use yahoo_finance_api::exchange::{HttpEvent, HttpRequest, Location};
use yahoo_finance_api::extract::Extraction;
use yahoo_finance_api::{TransportFailure, YahooError};

const PAGE: &str = "<html><form><input type=\"hidden\" name=\"csrfToken\" value=\"T1\">\
<input type=\"hidden\" value=\"S1\" name=\"sessionId\"></form></html>";

fn answered(status: u16, location: Location) -> HttpEvent {
    HttpEvent::Answered { status, location }
}

fn failure(connect: bool, status: Option<u16>) -> TransportFailure {
    TransportFailure { connect, status, message: "no route".to_string() }
}

fn get_url(action: NegotiatorAction) -> String {
    match action {
        NegotiatorAction::Send(HttpRequest::Get { url }) => url,
        other => panic!("unexpected {:?}", other),
    }
}

fn fetch_failed(action: NegotiatorAction) -> String {
    match action {
        NegotiatorAction::Failed(YahooError::FetchFailed(text)) => text,
        other => panic!("unexpected {:?}", other),
    }
}

fn extraction_failed(outcome: Result<Consent, YahooError>) -> String {
    match outcome {
        Err(YahooError::ExtractionFailed(text)) => text,
        other => panic!("unexpected {:?}", other),
    }
}

#[test]
fn negotiation_opens_with_the_bootstrap_request() {
    let (state, action) = Negotiation::begin();
    assert_eq!(state, Negotiation::Bootstrap);
    assert_eq!(get_url(action), "https://guce.yahoo.com/consent");
}

#[test]
fn redirect_is_followed_to_the_exact_location() {
    let target = "https://guce.yahoo.com/consent?sessionId=abc";
    let (state, _) = Negotiation::begin();
    let (state, action) = state.step(answered(302, Location::Text(target.to_string())));
    assert_eq!(state, Negotiation::Redirected);
    assert_eq!(get_url(action), target);
    let (state, action) = state.step(answered(200, Location::Missing));
    assert_eq!(state, Negotiation::Page);
    assert!(matches!(action, NegotiatorAction::ReadBody));
    let (state, action) = state.step(HttpEvent::Body(PAGE.to_string()));
    assert_eq!(state, Negotiation::Closed);
    match action {
        NegotiatorAction::Agreed(consent) => {
            assert_eq!(consent.csrf_token, "T1");
            assert_eq!(consent.session_id, "S1");
        }
        other => panic!("unexpected {:?}", other),
    }
}

#[test]
fn every_redirection_status_is_followed() {
    for status in [300u16, 301, 302, 303, 307, 308, 399] {
        let (state, action) =
            Negotiation::Bootstrap.step(answered(status, Location::Text("https://a/b".to_string())));
        assert_eq!(state, Negotiation::Redirected);
        assert_eq!(get_url(action), "https://a/b");
    }
}

#[test]
fn answer_without_redirection_is_the_page_itself() {
    for status in [200u16, 299, 400, 404, 500] {
        let (state, action) =
            Negotiation::Bootstrap.step(answered(status, Location::Text("https://a/b".to_string())));
        assert_eq!(state, Negotiation::Page);
        assert!(matches!(action, NegotiatorAction::ReadBody));
    }
    let (state, action) = Negotiation::Page.step(HttpEvent::Body(PAGE.to_string()));
    assert_eq!(state, Negotiation::Closed);
    assert!(matches!(action, NegotiatorAction::Agreed(_)));
}

#[test]
fn redirection_without_location_fails() {
    let (state, action) = Negotiation::Bootstrap.step(answered(302, Location::Missing));
    assert_eq!(state, Negotiation::Closed);
    assert_eq!(fetch_failed(action), "Expected the location header");
}

#[test]
fn redirection_with_unreadable_location_fails() {
    let (state, action) = Negotiation::Bootstrap
        .step(answered(302, Location::Unreadable("failed to convert header to a str".to_string())));
    assert_eq!(state, Negotiation::Closed);
    assert_eq!(
        fetch_failed(action),
        "failed to get the url to redirect to: failed to convert header to a str"
    );
}

#[test]
fn redirection_to_what_is_no_uri_fails() {
    let (state, action) =
        Negotiation::Bootstrap.step(answered(302, Location::Text("http://[".to_string())));
    assert_eq!(state, Negotiation::Closed);
    let text = fetch_failed(action);
    assert!(text.starts_with("failed to parse the redirect location: "), "{}", text);
    assert!(text.len() > "failed to parse the redirect location: ".len());
}

#[test]
fn failed_bootstrap_is_classified() {
    let (state, action) = Negotiation::Bootstrap.step(HttpEvent::SendFailed(failure(true, None)));
    assert_eq!(state, Negotiation::Closed);
    assert!(matches!(action, NegotiatorAction::Failed(YahooError::ConnectionFailed(_))));
    let (_, action) = Negotiation::Bootstrap.step(HttpEvent::SendFailed(failure(false, Some(429))));
    match action {
        NegotiatorAction::Failed(YahooError::TooManyRequests(doing, _)) => {
            assert_eq!(doing, "starting consent negotiation")
        }
        other => panic!("unexpected {:?}", other),
    }
}

#[test]
fn failed_page_request_is_classified() {
    let (state, action) = Negotiation::Redirected.step(HttpEvent::SendFailed(failure(true, None)));
    assert_eq!(state, Negotiation::Closed);
    match action {
        NegotiatorAction::Failed(YahooError::ConnectionFailed(cause)) => {
            assert!(cause.connect);
            assert_eq!(cause.message, "no route");
        }
        other => panic!("unexpected {:?}", other),
    }
    let (_, action) = Negotiation::Redirected.step(HttpEvent::SendFailed(failure(true, Some(429))));
    assert!(matches!(action, NegotiatorAction::Failed(YahooError::ConnectionFailed(_))));
    let (_, action) = Negotiation::Redirected.step(HttpEvent::SendFailed(failure(false, Some(429))));
    match action {
        NegotiatorAction::Failed(YahooError::TooManyRequests(doing, cause)) => {
            assert_eq!(doing, "getting the consent web page");
            assert_eq!(cause.status, Some(429));
        }
        other => panic!("unexpected {:?}", other),
    }
    let (_, action) = Negotiation::Redirected.step(HttpEvent::SendFailed(failure(false, Some(500))));
    match action {
        NegotiatorAction::Failed(YahooError::UnexpectedResponse(doing, cause)) => {
            assert_eq!(doing, "getting the consent web page");
            assert_eq!(cause.status, Some(500));
        }
        other => panic!("unexpected {:?}", other),
    }
}

#[test]
fn unreadable_page_is_classified() {
    let (state, action) = Negotiation::Page.step(HttpEvent::BodyFailed(failure(false, None)));
    assert_eq!(state, Negotiation::Closed);
    match action {
        NegotiatorAction::Failed(YahooError::UnexpectedResponse(doing, _)) => {
            assert_eq!(doing, "reading the consent web page")
        }
        other => panic!("unexpected {:?}", other),
    }
}

#[test]
fn report_out_of_turn_ends_the_negotiation() {
    for (state, event) in [
        (Negotiation::Bootstrap, HttpEvent::Body(PAGE.to_string())),
        (Negotiation::Bootstrap, HttpEvent::BodyFailed(failure(false, None))),
        (Negotiation::Redirected, HttpEvent::Body(PAGE.to_string())),
        (Negotiation::Page, answered(200, Location::Missing)),
        (Negotiation::Page, HttpEvent::SendFailed(failure(false, None))),
        (Negotiation::Closed, HttpEvent::Body(PAGE.to_string())),
        (Negotiation::Closed, answered(302, Location::Text("https://a/b".to_string()))),
    ] {
        let (next, action) = state.step(event);
        assert_eq!(next, Negotiation::Closed);
        assert_eq!(fetch_failed(action), "the exchange with the service went out of step");
    }
}

#[test]
fn scrape_finds_both_tokens() {
    let consent = scrape(PAGE).unwrap();
    assert_eq!(consent.csrf_token, "T1");
    assert_eq!(consent.session_id, "S1");
}

#[test]
fn scrape_reports_the_missing_csrf_token_first() {
    let text = extraction_failed(scrape("<html>nothing here</html>"));
    assert_eq!(
        text,
        "failed to find the csrf token in the consent web page:\n<html>nothing here</html>"
    );
}

#[test]
fn scrape_reports_the_missing_session_id() {
    let page = "<input name=\"csrfToken\" value=\"T1\">";
    let text = extraction_failed(scrape(page));
    assert_eq!(
        text,
        format!("failed to find the session id in the consent web page:\n{}", page)
    );
}

#[test]
fn error_quotes_at_most_a_thousand_characters() {
    let page = "x".repeat(1500);
    let text = extraction_failed(scrape(&page));
    let opening = "failed to find the csrf token in the consent web page:\n";
    assert_eq!(text.len(), opening.len() + 1000);
    assert_eq!(text, format!("{}{}", opening, "x".repeat(1000)));
    let short = "y".repeat(999);
    let text = extraction_failed(scrape(&short));
    assert_eq!(text, format!("{}{}", opening, short));
    let wide = "é".repeat(1200);
    let text = extraction_failed(scrape(&wide));
    assert_eq!(text, format!("{}{}", opening, "é".repeat(1000)));
}

#[test]
fn consent_from_tells_every_failure() {
    let token = || Extraction::Found("t".to_string());
    let text = extraction_failed(consent_from(Extraction::NoValue, token(), "doc"));
    assert_eq!(text, "failed to extract the csrf token from the web page:\ndoc");
    let text = extraction_failed(consent_from(Extraction::NotFound, token(), "doc"));
    assert_eq!(text, "failed to find the csrf token in the consent web page:\ndoc");
    let text = extraction_failed(consent_from(Extraction::BadField, token(), "doc"));
    assert_eq!(text, "failed to find the csrf token in the consent web page:\ndoc");
    let text = extraction_failed(consent_from(token(), Extraction::NoValue, "doc"));
    assert_eq!(text, "failed to extract the session_id from the web page\n:doc");
    let text = extraction_failed(consent_from(token(), Extraction::NotFound, "doc"));
    assert_eq!(text, "failed to find the session id in the consent web page:\ndoc");
    let text = extraction_failed(consent_from(Extraction::NotFound, Extraction::NotFound, "doc"));
    assert_eq!(text, "failed to find the csrf token in the consent web page:\ndoc");
    let consent =
        consent_from(Extraction::Found("c".to_string()), Extraction::Found("s".to_string()), "doc")
            .unwrap();
    assert_eq!(consent.csrf_token, "c");
    assert_eq!(consent.session_id, "s");
}

#[test]
fn payload_has_the_six_fields() {
    let consent = Consent { session_id: "S1".to_string(), csrf_token: "T1".to_string() };
    let payload = get_collect_consent_payload(&consent);
    let expected = vec![
        ("agree".to_string(), "agree".to_string()),
        ("consentUUID".to_string(), "default".to_string()),
        ("sessionId".to_string(), "S1".to_string()),
        ("csrfToken".to_string(), "T1".to_string()),
        ("originalDoneUrl".to_string(), "https://finance.yahoo.com".to_string()),
        ("namespace".to_string(), "yahoo".to_string()),
    ];
    assert_eq!(payload, expected);
    for (i, first) in payload.iter().enumerate() {
        for second in payload.iter().skip(i + 1) {
            assert_ne!(first.0, second.0);
        }
    }
}
