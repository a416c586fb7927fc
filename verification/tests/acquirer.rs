use yahoo_finance_api::acquire::{AcquirerAction, Acquisition};
use yahoo_finance_api::consent::{Consent, Negotiation};
use yahoo_finance_api::exchange::{HttpEvent, HttpRequest, Location};
use yahoo_finance_api::{TransportFailure, YahooError};

const PAGE: &str = "<form><input type=\"hidden\" name=\"csrfToken\" value=\"T1\">\
<input type=\"hidden\" name=\"sessionId\" value=\"S1\"></form>";

fn answered(status: u16) -> HttpEvent {
    HttpEvent::Answered { status, location: Location::Missing }
}

fn failure(connect: bool, status: Option<u16>) -> TransportFailure {
    TransportFailure { connect, status, message: "timed out".to_string() }
}

fn get_url(action: AcquirerAction) -> String {
    match action {
        AcquirerAction::Send(HttpRequest::Get { url }) => url,
        other => panic!("unexpected {:?}", other),
    }
}

fn expected_form() -> Vec<(String, String)> {
    vec![
        ("agree".to_string(), "agree".to_string()),
        ("consentUUID".to_string(), "default".to_string()),
        ("sessionId".to_string(), "S1".to_string()),
        ("csrfToken".to_string(), "T1".to_string()),
        ("originalDoneUrl".to_string(), "https://finance.yahoo.com".to_string()),
        ("namespace".to_string(), "yahoo".to_string()),
    ]
}

fn unexpected_while(action: AcquirerAction) -> String {
    match action {
        AcquirerAction::Failed(YahooError::UnexpectedResponse(doing, _)) => doing,
        other => panic!("unexpected {:?}", other),
    }
}

#[test]
fn attempt_opens_with_the_session_request() {
    let (state, action) = Acquisition::begin();
    assert!(matches!(state, Acquisition::Warmup));
    assert_eq!(get_url(action), "https://fc.yahoo.com");
}

#[test]
fn fast_path_returns_the_body_as_crumb() {
    let (state, _) = Acquisition::begin();
    // the answer to the session request counts for nothing but its arrival
    let (state, action) = state.step(answered(404));
    assert!(matches!(state, Acquisition::FastAnswer));
    assert_eq!(get_url(action), "https://query1.finance.yahoo.com/v1/test/getcrumb");
    let (state, action) = state.step(answered(200));
    assert!(matches!(state, Acquisition::FastBody { status: 200 }));
    assert!(matches!(action, AcquirerAction::ReadBody));
    let (state, action) = state.step(HttpEvent::Body("cRuMb/123".to_string()));
    assert!(matches!(state, Acquisition::Closed));
    assert!(matches!(action, AcquirerAction::Obtained(crumb) if crumb == "cRuMb/123"));
}

#[test]
fn refused_crumb_opens_the_consent_negotiation() {
    for status in [401u16, 403, 429, 500, 199, 300, 302, 0, 999] {
        let state = Acquisition::FastBody { status };
        let (state, action) = state.step(HttpEvent::Body("Too Many Requests".to_string()));
        assert!(matches!(state, Acquisition::Negotiating(Negotiation::Bootstrap)));
        assert_eq!(get_url(action), "https://guce.yahoo.com/consent");
    }
}

#[test]
fn fallback_runs_consent_then_asks_again() {
    let state = Acquisition::FastBody { status: 401 };
    let (state, action) = state.step(HttpEvent::Body("no".to_string()));
    assert_eq!(get_url(action), "https://guce.yahoo.com/consent");
    let target = "https://consent.yahoo.com/v2/collectConsent?sessionId=3_cc-session_1";
    let (state, action) =
        state.step(HttpEvent::Answered { status: 302, location: Location::Text(target.to_string()) });
    assert!(matches!(state, Acquisition::Negotiating(Negotiation::Redirected)));
    assert_eq!(get_url(action), target);
    let (state, action) = state.step(answered(200));
    assert!(matches!(state, Acquisition::Negotiating(Negotiation::Page)));
    assert!(matches!(action, AcquirerAction::ReadBody));
    let (state, action) = state.step(HttpEvent::Body(PAGE.to_string()));
    match &state {
        Acquisition::Submitting(consent) => {
            assert_eq!(consent.csrf_token, "T1");
            assert_eq!(consent.session_id, "S1");
        }
        other => panic!("unexpected {:?}", other),
    }
    match action {
        AcquirerAction::Send(HttpRequest::PostForm { url, form }) => {
            assert_eq!(url, "https://consent.yahoo.com/v2/collectConsent");
            assert_eq!(form, expected_form());
        }
        other => panic!("unexpected {:?}", other),
    }
    let (state, action) = state.step(answered(302));
    assert!(matches!(state, Acquisition::Copying));
    match action {
        AcquirerAction::Send(HttpRequest::GetWithQuery { url, query }) => {
            assert_eq!(url, "https://guce.yahoo.com/copyConsent");
            assert_eq!(query, expected_form());
        }
        other => panic!("unexpected {:?}", other),
    }
    let (state, action) = state.step(answered(200));
    assert!(matches!(state, Acquisition::RetryAnswer));
    assert_eq!(get_url(action), "https://query1.finance.yahoo.com/v1/test/getcrumb");
    let (state, action) = state.step(answered(200));
    assert!(matches!(state, Acquisition::RetryBody));
    assert!(matches!(action, AcquirerAction::ReadBody));
    let (state, action) = state.step(HttpEvent::Body("fresh-crumb".to_string()));
    assert!(matches!(state, Acquisition::Closed));
    assert!(matches!(action, AcquirerAction::Obtained(crumb) if crumb == "fresh-crumb"));
}

#[test]
fn every_success_status_gives_the_crumb() {
    for status in [200u16, 201, 204, 299] {
        let (state, action) =
            Acquisition::FastBody { status }.step(HttpEvent::Body("crumb-1".to_string()));
        assert!(matches!(state, Acquisition::Closed));
        assert!(matches!(action, AcquirerAction::Obtained(crumb) if crumb == "crumb-1"));
        let (state, action) = Acquisition::RetryAnswer.step(answered(status));
        assert!(matches!(state, Acquisition::RetryBody));
        assert!(matches!(action, AcquirerAction::ReadBody));
    }
}

#[test]
fn second_refusal_is_final() {
    let (state, action) = Acquisition::RetryAnswer.step(answered(403));
    assert!(matches!(state, Acquisition::Closed));
    match action {
        AcquirerAction::Failed(YahooError::UnexpectedResponse(doing, cause)) => {
            assert_eq!(doing, "sending the request to get the crumb");
            assert!(!cause.connect);
            assert_eq!(cause.status, Some(403));
            assert_eq!(
                cause.message,
                "expected successful request when getting crumb but got one with status 403 Forbidden"
            );
        }
        other => panic!("unexpected {:?}", other),
    }
    let (_, action) = Acquisition::RetryAnswer.step(answered(401));
    assert!(matches!(
        action,
        AcquirerAction::Failed(YahooError::UnexpectedResponse(_, cause)) if cause.status == Some(401)
    ));
    let (_, action) = Acquisition::RetryAnswer.step(answered(429));
    match action {
        AcquirerAction::Failed(YahooError::TooManyRequests(doing, cause)) => {
            assert_eq!(doing, "sending the request to get the crumb");
            assert_eq!(cause.status, Some(429));
            assert_eq!(
                cause.message,
                "expected successful request when getting crumb but got one with status 429 Too Many Requests"
            );
        }
        other => panic!("unexpected {:?}", other),
    }
}

#[test]
fn failed_negotiation_ends_the_attempt() {
    let state = Acquisition::Negotiating(Negotiation::Page);
    let (state, action) = state.step(HttpEvent::Body("<html></html>".to_string()));
    assert!(matches!(state, Acquisition::Closed));
    match action {
        AcquirerAction::Failed(YahooError::ExtractionFailed(text)) => assert_eq!(
            text,
            "failed to find the csrf token in the consent web page:\n<html></html>"
        ),
        other => panic!("unexpected {:?}", other),
    }
}

#[test]
fn each_request_names_what_it_was_doing() {
    let consent = || Consent { session_id: "S1".to_string(), csrf_token: "T1".to_string() };
    let send_failed = || HttpEvent::SendFailed(failure(false, Some(500)));
    let body_failed = || HttpEvent::BodyFailed(failure(false, None));
    let (_, action) = Acquisition::Warmup.step(send_failed());
    assert_eq!(unexpected_while(action), "obtaining the session cookie");
    let (_, action) = Acquisition::FastAnswer.step(send_failed());
    assert_eq!(unexpected_while(action), "obtaining the crumb");
    let (_, action) = Acquisition::FastBody { status: 200 }.step(body_failed());
    assert_eq!(unexpected_while(action), "reading the crumb from the response");
    let (_, action) = Acquisition::FastBody { status: 500 }.step(body_failed());
    assert_eq!(unexpected_while(action), "reading the crumb from the response");
    let (_, action) = Acquisition::Negotiating(Negotiation::Bootstrap).step(send_failed());
    assert_eq!(unexpected_while(action), "starting consent negotiation");
    let (_, action) = Acquisition::Negotiating(Negotiation::Redirected).step(send_failed());
    assert_eq!(unexpected_while(action), "getting the consent web page");
    let (_, action) = Acquisition::Negotiating(Negotiation::Page).step(body_failed());
    assert_eq!(unexpected_while(action), "reading the consent web page");
    let (_, action) = Acquisition::Submitting(consent()).step(send_failed());
    assert_eq!(unexpected_while(action), "sending the consent");
    let (_, action) = Acquisition::Copying.step(send_failed());
    assert_eq!(unexpected_while(action), "copying the consent into cookies");
    let (_, action) = Acquisition::RetryAnswer.step(send_failed());
    assert_eq!(unexpected_while(action), "sending the request to get the crumb");
    let (_, action) = Acquisition::RetryBody.step(body_failed());
    assert_eq!(unexpected_while(action), "reading the crumb from the response");
}

#[test]
fn transport_failures_keep_their_kind() {
    let (state, action) = Acquisition::Warmup.step(HttpEvent::SendFailed(failure(true, None)));
    assert!(matches!(state, Acquisition::Closed));
    assert!(matches!(action, AcquirerAction::Failed(YahooError::ConnectionFailed(_))));
    let (_, action) = Acquisition::FastAnswer.step(HttpEvent::SendFailed(failure(false, Some(429))));
    assert!(matches!(
        action,
        AcquirerAction::Failed(YahooError::TooManyRequests(doing, _)) if doing == "obtaining the crumb"
    ));
}

#[test]
fn closed_attempt_answers_with_a_failure() {
    let (state, action) = Acquisition::Closed.step(answered(200));
    assert!(matches!(state, Acquisition::Closed));
    assert!(matches!(
        action,
        AcquirerAction::Failed(YahooError::FetchFailed(text))
            if text == "the exchange with the service went out of step"
    ));
    let (state, action) = Acquisition::Warmup.step(HttpEvent::Body("x".to_string()));
    assert!(matches!(state, Acquisition::Closed));
    assert!(matches!(action, AcquirerAction::Failed(YahooError::FetchFailed(_))));
}

#[test]
fn attempt_ends_within_ten_reports() {
    let target = "https://consent.yahoo.com/page";
    let mut reports = vec![
        answered(200),
        answered(401),
        HttpEvent::Body("denied".to_string()),
        HttpEvent::Answered { status: 302, location: Location::Text(target.to_string()) },
        answered(200),
        HttpEvent::Body(PAGE.to_string()),
        answered(200),
        answered(200),
        answered(200),
        HttpEvent::Body("crumb".to_string()),
    ]
    .into_iter();
    let (mut state, mut action) = Acquisition::begin();
    let mut taken = 0;
    let crumb = loop {
        match action {
            AcquirerAction::Obtained(crumb) => break crumb,
            AcquirerAction::Failed(error) => panic!("unexpected {:?}", error),
            AcquirerAction::Send(_) | AcquirerAction::ReadBody => {
                let next = state.step(reports.next().unwrap());
                state = next.0;
                action = next.1;
                taken += 1;
            }
        }
    };
    assert_eq!(crumb, "crumb");
    assert_eq!(taken, 10);
    assert!(matches!(state, Acquisition::Closed));
}
