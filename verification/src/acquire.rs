use vstd::prelude::*;
use vstd::string::*;

use crate::consent::{
    consent_payload, get_collect_consent_payload, negotiation_step, out_of_step, scraped,
    Consent, ConsentView, Negotiation, NegotiatorAction, NegotiatorActionView, CONSENT_URL,
};
use crate::exchange::{
    describe_status, is_success, status_is_success, status_text, HttpEvent, HttpEventView,
    HttpRequest, HttpRequestView, LocationView,
};
use crate::text::join;
use crate::yahoo_error::{
    classified, TransportFailure, TransportFailureView, YahooError, YahooErrorView,
};

verus! {

/// The request to this address seeds the session cookie.
pub const SESSION_URL: &'static str = "https://fc.yahoo.com";

/// The body of a successful answer from this address is the crumb.
pub const CRUMB_URL: &'static str = "https://query1.finance.yahoo.com/v1/test/getcrumb";

/// The consent form is posted to this address.
pub const COLLECT_CONSENT_URL: &'static str = "https://consent.yahoo.com/v2/collectConsent";

/// The request to this address copies the consent into the cookies.
pub const COPY_CONSENT_URL: &'static str = "https://guce.yahoo.com/copyConsent";

/// How far an attempt to obtain a crumb has come.
#[derive(Debug)]
pub enum Acquisition {
    /// The request that seeds the session cookie is out.
    Warmup,
    /// The first request for the crumb is out.
    FastAnswer,
    /// The body of the first answer, which came with `status`, is being read.
    FastBody { status: u16 },
    /// The service wants consent; the negotiation stands as told.
    Negotiating(Negotiation),
    /// The consent form is out.
    Submitting(Consent),
    /// The request that copies the consent into the cookies is out.
    Copying,
    /// The second request for the crumb is out.
    RetryAnswer,
    /// The body of the second answer is being read.
    RetryBody,
    /// The attempt has ended.
    Closed,
}

/// An [`Acquisition`] as specifications see it.
pub enum AcquisitionView {
    Warmup,
    FastAnswer,
    FastBody { status: u16 },
    Negotiating(Negotiation),
    Submitting(ConsentView),
    Copying,
    RetryAnswer,
    RetryBody,
    Closed,
}

impl View for Acquisition {
    type V = AcquisitionView;

    open spec fn view(&self) -> AcquisitionView {
        match self {
            Acquisition::Warmup => AcquisitionView::Warmup,
            Acquisition::FastAnswer => AcquisitionView::FastAnswer,
            Acquisition::FastBody { status } => AcquisitionView::FastBody { status: *status },
            Acquisition::Negotiating(negotiation) => AcquisitionView::Negotiating(*negotiation),
            Acquisition::Submitting(consent) => AcquisitionView::Submitting(consent@),
            Acquisition::Copying => AcquisitionView::Copying,
            Acquisition::RetryAnswer => AcquisitionView::RetryAnswer,
            Acquisition::RetryBody => AcquisitionView::RetryBody,
            Acquisition::Closed => AcquisitionView::Closed,
        }
    }
}

/// What the acquirer asks of its driver.
#[derive(Debug)]
pub enum AcquirerAction {
    /// Send the request and report how it went.
    Send(HttpRequest),
    /// Read the body of the last response and report it.
    ReadBody,
    /// The attempt succeeded: the crumb.
    Obtained(String),
    /// The attempt failed.
    Failed(YahooError),
}

/// An [`AcquirerAction`] as specifications see it.
pub enum AcquirerActionView {
    Send(HttpRequestView),
    ReadBody,
    Obtained(Seq<char>),
    Failed(YahooErrorView),
}

impl View for AcquirerAction {
    type V = AcquirerActionView;

    open spec fn view(&self) -> AcquirerActionView {
        match self {
            AcquirerAction::Send(request) => AcquirerActionView::Send(request@),
            AcquirerAction::ReadBody => AcquirerActionView::ReadBody,
            AcquirerAction::Obtained(crumb) => AcquirerActionView::Obtained(crumb@),
            AcquirerAction::Failed(error) => AcquirerActionView::Failed(error@),
        }
    }
}

/// The request for the crumb.
pub open spec fn crumb_request() -> AcquirerActionView {
    AcquirerActionView::Send(HttpRequestView::Get { url: CRUMB_URL@ })
}

/// What the transport would have said of an answer with `status` to a
/// request for the crumb, had it taken the status for a failure.
pub open spec fn refusal(status: u16) -> TransportFailureView {
    TransportFailureView {
        connect: false,
        status: Some(status),
        message: "expected successful request when getting crumb but got one with status "@
            + status_text(status),
    }
}

/// The failure of an attempt whose second request for the crumb was answered
/// with `status`: it is sorted like a failure of the transport with that
/// status, so that 429 tells of too many requests and any other status of an
/// unexpected response.
pub open spec fn refused(status: u16) -> YahooErrorView {
    classified(refusal(status), "sending the request to get the crumb"@)
}

/// What the acquirer makes of a step of the negotiation it runs: it passes
/// the negotiator's requests on, posts the consent form once consent is
/// reached, and ends where the negotiation fails.
pub open spec fn negotiated(step: (Negotiation, NegotiatorActionView)) -> (
    AcquisitionView,
    AcquirerActionView,
) {
    match step.1 {
        NegotiatorActionView::Send(request) => (
            AcquisitionView::Negotiating(step.0),
            AcquirerActionView::Send(request),
        ),
        NegotiatorActionView::ReadBody => (
            AcquisitionView::Negotiating(step.0),
            AcquirerActionView::ReadBody,
        ),
        NegotiatorActionView::Agreed(consent) => (
            AcquisitionView::Submitting(consent),
            AcquirerActionView::Send(
                HttpRequestView::PostForm {
                    url: COLLECT_CONSENT_URL@,
                    form: consent_payload(consent),
                },
            ),
        ),
        NegotiatorActionView::Failed(error) => (
            AcquisitionView::Closed,
            AcquirerActionView::Failed(error),
        ),
    }
}

/// The acquirer's rule: what it does, and where it then stands, when `event`
/// arrives in `state`.
///
/// The fast path asks for the crumb directly. Only an answer whose status is
/// no success opens the consent negotiation, after which the crumb is asked
/// for once more; that second answer is final.
pub open spec fn acquisition_step(state: AcquisitionView, event: HttpEventView) -> (
    AcquisitionView,
    AcquirerActionView,
) {
    match (state, event) {
        (AcquisitionView::Warmup, HttpEventView::SendFailed(cause)) => (
            AcquisitionView::Closed,
            AcquirerActionView::Failed(classified(cause, "obtaining the session cookie"@)),
        ),
        (AcquisitionView::Warmup, HttpEventView::Answered { .. }) => (
            AcquisitionView::FastAnswer,
            crumb_request(),
        ),
        (AcquisitionView::FastAnswer, HttpEventView::SendFailed(cause)) => (
            AcquisitionView::Closed,
            AcquirerActionView::Failed(classified(cause, "obtaining the crumb"@)),
        ),
        (AcquisitionView::FastAnswer, HttpEventView::Answered { status, .. }) => (
            AcquisitionView::FastBody { status },
            AcquirerActionView::ReadBody,
        ),
        (AcquisitionView::FastBody { .. }, HttpEventView::BodyFailed(cause)) => (
            AcquisitionView::Closed,
            AcquirerActionView::Failed(classified(cause, "reading the crumb from the response"@)),
        ),
        (AcquisitionView::FastBody { status }, HttpEventView::Body(text)) => if is_success(
            status,
        ) {
            (AcquisitionView::Closed, AcquirerActionView::Obtained(text))
        } else {
            (
                AcquisitionView::Negotiating(Negotiation::Bootstrap),
                AcquirerActionView::Send(HttpRequestView::Get { url: CONSENT_URL@ }),
            )
        },
        (AcquisitionView::Negotiating(negotiation), event) => negotiated(
            negotiation_step(negotiation, event),
        ),
        (AcquisitionView::Submitting(_), HttpEventView::SendFailed(cause)) => (
            AcquisitionView::Closed,
            AcquirerActionView::Failed(classified(cause, "sending the consent"@)),
        ),
        (AcquisitionView::Submitting(consent), HttpEventView::Answered { .. }) => (
            AcquisitionView::Copying,
            AcquirerActionView::Send(
                HttpRequestView::GetWithQuery {
                    url: COPY_CONSENT_URL@,
                    query: consent_payload(consent),
                },
            ),
        ),
        (AcquisitionView::Copying, HttpEventView::SendFailed(cause)) => (
            AcquisitionView::Closed,
            AcquirerActionView::Failed(classified(cause, "copying the consent into cookies"@)),
        ),
        (AcquisitionView::Copying, HttpEventView::Answered { .. }) => (
            AcquisitionView::RetryAnswer,
            crumb_request(),
        ),
        (AcquisitionView::RetryAnswer, HttpEventView::SendFailed(cause)) => (
            AcquisitionView::Closed,
            AcquirerActionView::Failed(
                classified(cause, "sending the request to get the crumb"@),
            ),
        ),
        (AcquisitionView::RetryAnswer, HttpEventView::Answered { status, .. }) => if is_success(
            status,
        ) {
            (AcquisitionView::RetryBody, AcquirerActionView::ReadBody)
        } else {
            (AcquisitionView::Closed, AcquirerActionView::Failed(refused(status)))
        },
        (AcquisitionView::RetryBody, HttpEventView::BodyFailed(cause)) => (
            AcquisitionView::Closed,
            AcquirerActionView::Failed(classified(cause, "reading the crumb from the response"@)),
        ),
        (AcquisitionView::RetryBody, HttpEventView::Body(text)) => (
            AcquisitionView::Closed,
            AcquirerActionView::Obtained(text),
        ),
        _ => (AcquisitionView::Closed, AcquirerActionView::Failed(out_of_step())),
    }
}

/// The failure that answers an event for which the attempt is not waiting.
fn lost_step() -> (next: (Acquisition, AcquirerAction))
    ensures
        next.0@ == AcquisitionView::Closed,
        next.1@ == AcquirerActionView::Failed(out_of_step()),
{
    (
        Acquisition::Closed,
        AcquirerAction::Failed(
            YahooError::FetchFailed(
                String::from_str("the exchange with the service went out of step"),
            ),
        ),
    )
}

/// An attempt ends with the failure `cause`, met while doing `action`.
fn give_up(cause: TransportFailure, action: &str) -> (next: (Acquisition, AcquirerAction))
    ensures
        next.0@ == AcquisitionView::Closed,
        next.1@ == AcquirerActionView::Failed(classified(cause@, action@)),
{
    (Acquisition::Closed, AcquirerAction::Failed(YahooError::from_wreq_while(cause, action)))
}

/// The request for the crumb.
fn ask_for_crumb() -> (action: AcquirerAction)
    ensures
        action@ == crumb_request(),
{
    AcquirerAction::Send(HttpRequest::Get { url: String::from_str(CRUMB_URL) })
}

/// Turns a step of the negotiation into a step of the attempt.
fn carry_on(step: (Negotiation, NegotiatorAction)) -> (next: (Acquisition, AcquirerAction))
    ensures
        (next.0@, next.1@) == negotiated((step.0, step.1@)),
{
    let (negotiation, action) = step;
    match action {
        NegotiatorAction::Send(request) => (
            Acquisition::Negotiating(negotiation),
            AcquirerAction::Send(request),
        ),
        NegotiatorAction::ReadBody => (
            Acquisition::Negotiating(negotiation),
            AcquirerAction::ReadBody,
        ),
        NegotiatorAction::Agreed(consent) => {
            let form = get_collect_consent_payload(&consent);
            (
                Acquisition::Submitting(consent),
                AcquirerAction::Send(
                    HttpRequest::PostForm { url: String::from_str(COLLECT_CONSENT_URL), form },
                ),
            )
        },
        NegotiatorAction::Failed(error) => (Acquisition::Closed, AcquirerAction::Failed(error)),
    }
}

impl Acquisition {
    /// Opens an attempt: the request that seeds the session cookie goes out.
    pub fn begin() -> (opened: (Acquisition, AcquirerAction))
        ensures
            opened.0@ == AcquisitionView::Warmup,
            opened.1@ == AcquirerActionView::Send(HttpRequestView::Get { url: SESSION_URL@ }),
    {
        (
            Acquisition::Warmup,
            AcquirerAction::Send(HttpRequest::Get { url: String::from_str(SESSION_URL) }),
        )
    }

    /// Takes the driver's report `event` and says what to do next.
    pub fn step(self, event: HttpEvent) -> (next: (Acquisition, AcquirerAction))
        ensures
            (next.0@, next.1@) == acquisition_step(self@, event@),
    {
        match self {
            Acquisition::Warmup => match event {
                HttpEvent::SendFailed(cause) => give_up(cause, "obtaining the session cookie"),
                HttpEvent::Answered { .. } => (Acquisition::FastAnswer, ask_for_crumb()),
                _ => lost_step(),
            },
            Acquisition::FastAnswer => match event {
                HttpEvent::SendFailed(cause) => give_up(cause, "obtaining the crumb"),
                HttpEvent::Answered { status, .. } => (
                    Acquisition::FastBody { status },
                    AcquirerAction::ReadBody,
                ),
                _ => lost_step(),
            },
            Acquisition::FastBody { status } => match event {
                HttpEvent::BodyFailed(cause) => give_up(
                    cause,
                    "reading the crumb from the response",
                ),
                HttpEvent::Body(text) => {
                    if status_is_success(status) {
                        (Acquisition::Closed, AcquirerAction::Obtained(text))
                    } else {
                        carry_on(Negotiation::begin())
                    }
                },
                _ => lost_step(),
            },
            Acquisition::Negotiating(negotiation) => carry_on(negotiation.step(event)),
            Acquisition::Submitting(consent) => match event {
                HttpEvent::SendFailed(cause) => give_up(cause, "sending the consent"),
                HttpEvent::Answered { .. } => {
                    let query = get_collect_consent_payload(&consent);
                    (
                        Acquisition::Copying,
                        AcquirerAction::Send(
                            HttpRequest::GetWithQuery {
                                url: String::from_str(COPY_CONSENT_URL),
                                query,
                            },
                        ),
                    )
                },
                _ => lost_step(),
            },
            Acquisition::Copying => match event {
                HttpEvent::SendFailed(cause) => give_up(cause, "copying the consent into cookies"),
                HttpEvent::Answered { .. } => (Acquisition::RetryAnswer, ask_for_crumb()),
                _ => lost_step(),
            },
            Acquisition::RetryAnswer => match event {
                HttpEvent::SendFailed(cause) => give_up(
                    cause,
                    "sending the request to get the crumb",
                ),
                HttpEvent::Answered { status, .. } => {
                    if status_is_success(status) {
                        (Acquisition::RetryBody, AcquirerAction::ReadBody)
                    } else {
                        let written = describe_status(status);
                        let message = join(
                            "expected successful request when getting crumb but got one with status ",
                            written.as_str(),
                        );
                        let cause = TransportFailure { connect: false, status: Some(status), message };
                        give_up(cause, "sending the request to get the crumb")
                    }
                },
                _ => lost_step(),
            },
            Acquisition::RetryBody => match event {
                HttpEvent::BodyFailed(cause) => give_up(
                    cause,
                    "reading the crumb from the response",
                ),
                HttpEvent::Body(text) => (Acquisition::Closed, AcquirerAction::Obtained(text)),
                _ => lost_step(),
            },
            Acquisition::Closed => lost_step(),
        }
    }
}

/// An upper bound on the number of reports that an attempt in `state` still
/// takes before it ends.
pub open spec fn reports_left(state: AcquisitionView) -> nat {
    match state {
        AcquisitionView::Warmup => 10,
        AcquisitionView::FastAnswer => 9,
        AcquisitionView::FastBody { .. } => 8,
        AcquisitionView::Negotiating(Negotiation::Bootstrap) => 7,
        AcquisitionView::Negotiating(Negotiation::Redirected) => 6,
        AcquisitionView::Negotiating(Negotiation::Page) => 5,
        AcquisitionView::Negotiating(Negotiation::Closed) => 1,
        AcquisitionView::Submitting(_) => 4,
        AcquisitionView::Copying => 3,
        AcquisitionView::RetryAnswer => 2,
        AcquisitionView::RetryBody => 1,
        AcquisitionView::Closed => 0,
    }
}

/// Whether `action` ends an attempt.
pub open spec fn is_final(action: AcquirerActionView) -> bool {
    action is Obtained || action is Failed
}

/// Every report brings an attempt nearer to its end, and the attempt ends
/// exactly when the acquirer hands out a crumb or a failure. An attempt
/// starts with ten reports left, so it takes no more than ten; within an
/// attempt nothing is tried again.
pub proof fn lemma_attempt_ends(state: AcquisitionView, event: HttpEventView)
    ensures
        reports_left(AcquisitionView::Warmup) == 10,
        is_final(acquisition_step(state, event).1) <==> acquisition_step(state, event).0
            == AcquisitionView::Closed,
        state != AcquisitionView::Closed ==> reports_left(acquisition_step(state, event).0)
            < reports_left(state),
        state == AcquisitionView::Closed ==> acquisition_step(state, event).1
            == AcquirerActionView::Failed(out_of_step()),
{
}

/// An answer to the first request for the crumb whose status is a success
/// ends the attempt with the body as the crumb, and no other status does:
/// the attempt then turns to the consent negotiation without looking at the
/// body.
pub proof fn lemma_fast_path(status: u16, body: Seq<char>)
    ensures
        is_success(status) ==> acquisition_step(
            AcquisitionView::FastBody { status },
            HttpEventView::Body(body),
        ) == (AcquisitionView::Closed, AcquirerActionView::Obtained(body)),
        !is_success(status) ==> acquisition_step(
            AcquisitionView::FastBody { status },
            HttpEventView::Body(body),
        ) == (
            AcquisitionView::Negotiating(Negotiation::Bootstrap),
            AcquirerActionView::Send(HttpRequestView::Get { url: CONSENT_URL@ }),
        ),
{
}

/// The direct way: once the request that seeds the session cookie is
/// answered, whatever the answer, the crumb is asked for; an answer to that
/// request whose status is a success is read, and its body ends the attempt
/// as the crumb. Two requests go out and none for consent.
pub proof fn lemma_direct_way(
    first: HttpEventView,
    status: u16,
    location: LocationView,
    body: Seq<char>,
)
    requires
        first is Answered,
        is_success(status),
    ensures
        acquisition_step(AcquisitionView::Warmup, first) == (
            AcquisitionView::FastAnswer,
            crumb_request(),
        ),
        acquisition_step(
            AcquisitionView::FastAnswer,
            HttpEventView::Answered { status, location },
        ) == (AcquisitionView::FastBody { status }, AcquirerActionView::ReadBody),
        acquisition_step(AcquisitionView::FastBody { status }, HttpEventView::Body(body)) == (
            AcquisitionView::Closed,
            AcquirerActionView::Obtained(body),
        ),
{
}

/// A second answer whose status is no success ends the attempt with an error
/// that names the request for the crumb: too many requests for status 429,
/// an unexpected response for every other status. Both carry the status.
pub proof fn lemma_second_refusal(status: u16, location: LocationView)
    requires
        !is_success(status),
    ensures
        acquisition_step(
            AcquisitionView::RetryAnswer,
            HttpEventView::Answered { status, location },
        ) == (AcquisitionView::Closed, AcquirerActionView::Failed(refused(status))),
        status == 429 ==> refused(status) == YahooErrorView::TooManyRequests(
            "sending the request to get the crumb"@,
            refusal(status),
        ),
        status != 429 ==> refused(status) == YahooErrorView::UnexpectedResponse(
            "sending the request to get the crumb"@,
            refusal(status),
        ),
        refusal(status).status == Some(status),
{
}

/// Once the consent page has given a consent, the same form goes out twice,
/// first posted to the consent service and then as the query of the request
/// that copies the consent into the cookies; after that the crumb is asked
/// for once more. An answer whose status is a success is read and its body
/// is the crumb; any other status ends the attempt with a failure.
pub proof fn lemma_consent_path(
    html: Seq<char>,
    answer: HttpEventView,
    status: u16,
    location: LocationView,
    body: Seq<char>,
)
    requires
        scraped(html) is Ok,
        answer is Answered,
    ensures
        ({
            let consent = scraped(html)->Ok_0;
            let form = consent_payload(consent);
            &&& acquisition_step(
                AcquisitionView::Negotiating(Negotiation::Page),
                HttpEventView::Body(html),
            ) == (
                AcquisitionView::Submitting(consent),
                AcquirerActionView::Send(
                    HttpRequestView::PostForm { url: COLLECT_CONSENT_URL@, form },
                ),
            )
            &&& acquisition_step(AcquisitionView::Submitting(consent), answer) == (
                AcquisitionView::Copying,
                AcquirerActionView::Send(
                    HttpRequestView::GetWithQuery { url: COPY_CONSENT_URL@, query: form },
                ),
            )
            &&& acquisition_step(AcquisitionView::Copying, answer) == (
                AcquisitionView::RetryAnswer,
                crumb_request(),
            )
            &&& acquisition_step(
                AcquisitionView::RetryAnswer,
                HttpEventView::Answered { status, location },
            ) == if is_success(status) {
                (AcquisitionView::RetryBody, AcquirerActionView::ReadBody)
            } else {
                (AcquisitionView::Closed, AcquirerActionView::Failed(refused(status)))
            }
            &&& acquisition_step(AcquisitionView::RetryBody, HttpEventView::Body(body)) == (
                AcquisitionView::Closed,
                AcquirerActionView::Obtained(body),
            )
        }),
{
}

} // verus!
