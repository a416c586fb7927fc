use vstd::prelude::*;
use vstd::string::*;

use crate::exchange::{
    is_redirection, status_is_redirection, HttpEvent, HttpEventView, HttpRequest,
    HttpRequestView, Location, LocationView,
};
use crate::extract::{extract, extracted, Extraction, ExtractionView};
use crate::text::{excerpt, join, prefix};
use crate::uri::{read_uri, uri_read};
use crate::yahoo_error::{classified, TransportFailureView, YahooError, YahooErrorView};

verus! {

/// Where the consent negotiation starts.
pub const CONSENT_URL: &'static str = "https://guce.yahoo.com/consent";

/// Name of the form field that holds the CSRF token.
pub const CSRF_TOKEN_FIELD: &'static str = "csrfToken";

/// Name of the form field that holds the session id.
pub const SESSION_ID_FIELD: &'static str = "sessionId";

/// How many characters of a consent page an error message quotes.
pub const EXCERPT_CHARS: usize = 1000;

/// The two tokens of a consent page. They serve one negotiation and are not
/// kept beyond it.
#[derive(Debug)]
pub struct Consent {
    pub session_id: String,
    pub csrf_token: String,
}

/// A [`Consent`] as specifications see it.
pub struct ConsentView {
    pub session_id: Seq<char>,
    pub csrf_token: Seq<char>,
}

impl View for Consent {
    type V = ConsentView;

    open spec fn view(&self) -> ConsentView {
        ConsentView { session_id: self.session_id@, csrf_token: self.csrf_token@ }
    }
}

/// The form that grants consent for the session of `consent`.
pub open spec fn consent_payload(consent: ConsentView) -> Seq<(Seq<char>, Seq<char>)> {
    seq![
        ("agree"@, "agree"@),
        ("consentUUID"@, "default"@),
        ("sessionId"@, consent.session_id),
        ("csrfToken"@, consent.csrf_token),
        ("originalDoneUrl"@, "https://finance.yahoo.com"@),
        ("namespace"@, "yahoo"@),
    ]
}

/// No two pairs of `pairs` have the same key.
pub open spec fn keys_distinct(pairs: Seq<(Seq<char>, Seq<char>)>) -> bool {
    forall|i: int, j: int|
        0 <= i < j < pairs.len() ==> (#[trigger] pairs[i]).0 != (#[trigger] pairs[j]).0
}

/// The form that grants consent has each of its six keys once.
pub proof fn lemma_payload_keys_distinct(consent: ConsentView)
    ensures
        consent_payload(consent).len() == 6,
        keys_distinct(consent_payload(consent)),
{
    reveal_strlit("agree");
    reveal_strlit("consentUUID");
    reveal_strlit("sessionId");
    reveal_strlit("csrfToken");
    reveal_strlit("originalDoneUrl");
    reveal_strlit("namespace");
    let pairs = consent_payload(consent);
    // three keys differ from all others in length
    assert(pairs[0].0.len() == 5 && pairs[1].0.len() == 11 && pairs[4].0.len() == 15);
    // the other three have nine letters and differ in the first
    assert(pairs[2].0.len() == 9 && pairs[2].0[0] == 's');
    assert(pairs[3].0.len() == 9 && pairs[3].0[0] == 'c');
    assert(pairs[5].0.len() == 9 && pairs[5].0[0] == 'n');
}

/// Writes the form that grants consent for the session of `consent`: the
/// pairs of [`consent_payload`], each key once.
pub fn get_collect_consent_payload(consent: &Consent) -> (payload: Vec<(String, String)>)
    ensures
        payload.deep_view() == consent_payload(consent@),
        keys_distinct(payload.deep_view()),
{
    let mut payload: Vec<(String, String)> = Vec::new();
    payload.push((String::from_str("agree"), String::from_str("agree")));
    payload.push((String::from_str("consentUUID"), String::from_str("default")));
    payload.push((String::from_str("sessionId"), consent.session_id.clone()));
    payload.push((String::from_str("csrfToken"), consent.csrf_token.clone()));
    payload.push(
        (String::from_str("originalDoneUrl"), String::from_str("https://finance.yahoo.com")),
    );
    payload.push((String::from_str("namespace"), String::from_str("yahoo")));
    proof {
        lemma_payload_keys_distinct(consent@);
    }
    payload
}

/// What two searches of the page `html` give: the consent, or the first token
/// that is missing, the CSRF token before the session id. The error quotes
/// the first [`EXCERPT_CHARS`] characters of the page.
pub open spec fn consent_of(csrf: ExtractionView, session: ExtractionView, html: Seq<char>) -> Result<
    ConsentView,
    YahooErrorView,
> {
    let quoted = prefix(html, EXCERPT_CHARS as nat);
    match csrf {
        ExtractionView::Found(csrf_token) => match session {
            ExtractionView::Found(session_id) => Ok(ConsentView { session_id, csrf_token }),
            ExtractionView::NoValue => Err(
                YahooErrorView::ExtractionFailed(
                    "failed to extract the session_id from the web page\n:"@ + quoted,
                ),
            ),
            _ => Err(
                YahooErrorView::ExtractionFailed(
                    "failed to find the session id in the consent web page:\n"@ + quoted,
                ),
            ),
        },
        ExtractionView::NoValue => Err(
            YahooErrorView::ExtractionFailed(
                "failed to extract the csrf token from the web page:\n"@ + quoted,
            ),
        ),
        _ => Err(
            YahooErrorView::ExtractionFailed(
                "failed to find the csrf token in the consent web page:\n"@ + quoted,
            ),
        ),
    }
}

/// What a `Result` of a consent or an error holds, as specifications see it.
pub open spec fn consent_view(outcome: Result<Consent, YahooError>) -> Result<
    ConsentView,
    YahooErrorView,
> {
    match outcome {
        Ok(consent) => Ok(consent@),
        Err(error) => Err(error@),
    }
}

/// Puts the outcomes of the two searches of the page `html` together.
pub fn consent_from(csrf: Extraction, session: Extraction, html: &str) -> (outcome: Result<
    Consent,
    YahooError,
>)
    ensures
        consent_view(outcome) == consent_of(csrf@, session@, html@),
{
    match csrf {
        Extraction::Found(csrf_token) => match session {
            Extraction::Found(session_id) => Ok(Consent { session_id, csrf_token }),
            Extraction::NoValue => Err(
                YahooError::ExtractionFailed(
                    join(
                        "failed to extract the session_id from the web page\n:",
                        excerpt(html, EXCERPT_CHARS).as_str(),
                    ),
                ),
            ),
            _ => Err(
                YahooError::ExtractionFailed(
                    join(
                        "failed to find the session id in the consent web page:\n",
                        excerpt(html, EXCERPT_CHARS).as_str(),
                    ),
                ),
            ),
        },
        Extraction::NoValue => Err(
            YahooError::ExtractionFailed(
                join(
                    "failed to extract the csrf token from the web page:\n",
                    excerpt(html, EXCERPT_CHARS).as_str(),
                ),
            ),
        ),
        _ => Err(
            YahooError::ExtractionFailed(
                join(
                    "failed to find the csrf token in the consent web page:\n",
                    excerpt(html, EXCERPT_CHARS).as_str(),
                ),
            ),
        ),
    }
}

/// The consent that the page `html` holds.
pub open spec fn scraped(html: Seq<char>) -> Result<ConsentView, YahooErrorView> {
    consent_of(extracted(html, CSRF_TOKEN_FIELD@), extracted(html, SESSION_ID_FIELD@), html)
}

/// Searches the consent page `html` for the CSRF token and for the session id.
pub fn scrape(html: &str) -> (outcome: Result<Consent, YahooError>)
    ensures
        consent_view(outcome) == scraped(html@),
{
    let csrf = extract(html, CSRF_TOKEN_FIELD);
    let session = extract(html, SESSION_ID_FIELD);
    consent_from(csrf, session, html)
}

/// How far a consent negotiation has come.
#[derive(Debug, Clone, Copy, PartialEq, Eq, Structural)]
pub enum Negotiation {
    /// The bootstrap request is out; its answer is awaited.
    Bootstrap,
    /// The service redirected; the request for the consent page is out.
    Redirected,
    /// The body of the consent page is being read.
    Page,
    /// The negotiation has ended.
    Closed,
}

/// What the negotiator asks of its driver.
#[derive(Debug)]
pub enum NegotiatorAction {
    /// Send the request and report how it went.
    Send(HttpRequest),
    /// Read the body of the last response and report it.
    ReadBody,
    /// The negotiation succeeded.
    Agreed(Consent),
    /// The negotiation failed.
    Failed(YahooError),
}

/// A [`NegotiatorAction`] as specifications see it.
pub enum NegotiatorActionView {
    Send(HttpRequestView),
    ReadBody,
    Agreed(ConsentView),
    Failed(YahooErrorView),
}

impl View for NegotiatorAction {
    type V = NegotiatorActionView;

    open spec fn view(&self) -> NegotiatorActionView {
        match self {
            NegotiatorAction::Send(request) => NegotiatorActionView::Send(request@),
            NegotiatorAction::ReadBody => NegotiatorActionView::ReadBody,
            NegotiatorAction::Agreed(consent) => NegotiatorActionView::Agreed(consent@),
            NegotiatorAction::Failed(error) => NegotiatorActionView::Failed(error@),
        }
    }
}

/// The failure that answers an event for which the negotiation is not waiting.
pub open spec fn out_of_step() -> YahooErrorView {
    YahooErrorView::FetchFailed("the exchange with the service went out of step"@)
}

/// The end of a negotiation from its outcome.
pub open spec fn concluded(outcome: Result<ConsentView, YahooErrorView>) -> NegotiatorActionView {
    match outcome {
        Ok(consent) => NegotiatorActionView::Agreed(consent),
        Err(error) => NegotiatorActionView::Failed(error),
    }
}

/// What follows the answer to the bootstrap request.
///
/// A redirection is followed to the very text of its `Location` header, once
/// that text has been read as a URI; any other answer is itself the consent
/// page.
pub open spec fn after_bootstrap(status: u16, location: LocationView) -> (
    Negotiation,
    NegotiatorActionView,
) {
    if is_redirection(status) {
        match location {
            LocationView::Missing => (
                Negotiation::Closed,
                NegotiatorActionView::Failed(
                    YahooErrorView::FetchFailed("Expected the location header"@),
                ),
            ),
            LocationView::Unreadable(why) => (
                Negotiation::Closed,
                NegotiatorActionView::Failed(
                    YahooErrorView::FetchFailed("failed to get the url to redirect to: "@ + why),
                ),
            ),
            LocationView::Text(target) => match uri_read(target) {
                Err(why) => (
                    Negotiation::Closed,
                    NegotiatorActionView::Failed(
                        YahooErrorView::FetchFailed(
                            "failed to parse the redirect location: "@ + why,
                        ),
                    ),
                ),
                Ok(_) => (
                    Negotiation::Redirected,
                    NegotiatorActionView::Send(HttpRequestView::Get { url: target }),
                ),
            },
        }
    } else {
        (Negotiation::Page, NegotiatorActionView::ReadBody)
    }
}

/// The negotiator's rule: what it does, and where it then stands, when
/// `event` arrives in `state`.
pub open spec fn negotiation_step(state: Negotiation, event: HttpEventView) -> (
    Negotiation,
    NegotiatorActionView,
) {
    match (state, event) {
        (Negotiation::Bootstrap, HttpEventView::SendFailed(cause)) => (
            Negotiation::Closed,
            NegotiatorActionView::Failed(classified(cause, "starting consent negotiation"@)),
        ),
        (Negotiation::Bootstrap, HttpEventView::Answered { status, location }) => after_bootstrap(
            status,
            location,
        ),
        (Negotiation::Redirected, HttpEventView::SendFailed(cause)) => (
            Negotiation::Closed,
            NegotiatorActionView::Failed(classified(cause, "getting the consent web page"@)),
        ),
        (Negotiation::Redirected, HttpEventView::Answered { .. }) => (
            Negotiation::Page,
            NegotiatorActionView::ReadBody,
        ),
        (Negotiation::Page, HttpEventView::BodyFailed(cause)) => (
            Negotiation::Closed,
            NegotiatorActionView::Failed(classified(cause, "reading the consent web page"@)),
        ),
        (Negotiation::Page, HttpEventView::Body(html)) => (
            Negotiation::Closed,
            concluded(scraped(html)),
        ),
        _ => (Negotiation::Closed, NegotiatorActionView::Failed(out_of_step())),
    }
}

impl Negotiation {
    /// Opens a negotiation: the bootstrap request goes out.
    pub fn begin() -> (opened: (Negotiation, NegotiatorAction))
        ensures
            opened.0 == Negotiation::Bootstrap,
            opened.1@ == NegotiatorActionView::Send(HttpRequestView::Get { url: CONSENT_URL@ }),
    {
        (
            Negotiation::Bootstrap,
            NegotiatorAction::Send(HttpRequest::Get { url: String::from_str(CONSENT_URL) }),
        )
    }

    /// Takes the driver's report `event` and says what to do next.
    pub fn step(self, event: HttpEvent) -> (next: (Negotiation, NegotiatorAction))
        ensures
            (next.0, next.1@) == negotiation_step(self, event@),
    {
        match (self, event) {
            (Negotiation::Bootstrap, HttpEvent::SendFailed(cause)) => (
                Negotiation::Closed,
                NegotiatorAction::Failed(
                    YahooError::from_wreq_while(cause, "starting consent negotiation"),
                ),
            ),
            (Negotiation::Bootstrap, HttpEvent::Answered { status, location }) => follow(
                status,
                location,
            ),
            (Negotiation::Redirected, HttpEvent::SendFailed(cause)) => (
                Negotiation::Closed,
                NegotiatorAction::Failed(
                    YahooError::from_wreq_while(cause, "getting the consent web page"),
                ),
            ),
            (Negotiation::Redirected, HttpEvent::Answered { .. }) => (
                Negotiation::Page,
                NegotiatorAction::ReadBody,
            ),
            (Negotiation::Page, HttpEvent::BodyFailed(cause)) => (
                Negotiation::Closed,
                NegotiatorAction::Failed(
                    YahooError::from_wreq_while(cause, "reading the consent web page"),
                ),
            ),
            (Negotiation::Page, HttpEvent::Body(html)) => {
                let action = match scrape(html.as_str()) {
                    Ok(consent) => NegotiatorAction::Agreed(consent),
                    Err(error) => NegotiatorAction::Failed(error),
                };
                (Negotiation::Closed, action)
            },
            _ => (
                Negotiation::Closed,
                NegotiatorAction::Failed(
                    YahooError::FetchFailed(
                        String::from_str("the exchange with the service went out of step"),
                    ),
                ),
            ),
        }
    }
}

/// Decides what follows the answer to the bootstrap request.
fn follow(status: u16, location: Location) -> (next: (Negotiation, NegotiatorAction))
    ensures
        (next.0, next.1@) == after_bootstrap(status, location@),
{
    if status_is_redirection(status) {
        match location {
            Location::Missing => (
                Negotiation::Closed,
                NegotiatorAction::Failed(
                    YahooError::FetchFailed(String::from_str("Expected the location header")),
                ),
            ),
            Location::Unreadable(why) => (
                Negotiation::Closed,
                NegotiatorAction::Failed(
                    YahooError::FetchFailed(
                        join("failed to get the url to redirect to: ", why.as_str()),
                    ),
                ),
            ),
            Location::Text(target) => match read_uri(target.as_str()) {
                Err(why) => (
                    Negotiation::Closed,
                    NegotiatorAction::Failed(
                        YahooError::FetchFailed(
                            join("failed to parse the redirect location: ", why.as_str()),
                        ),
                    ),
                ),
                Ok(_) => (
                    Negotiation::Redirected,
                    NegotiatorAction::Send(HttpRequest::Get { url: target }),
                ),
            },
        }
    } else {
        (Negotiation::Page, NegotiatorAction::ReadBody)
    }
}

/// A failure of the request for the consent page is sorted like every other
/// failure of the transport: a failed connection stays one, status 429 tells
/// of too many requests.
pub proof fn lemma_page_failure_is_classified(cause: TransportFailureView)
    ensures
        negotiation_step(Negotiation::Redirected, HttpEventView::SendFailed(cause)) == (
            Negotiation::Closed,
            NegotiatorActionView::Failed(classified(cause, "getting the consent web page"@)),
        ),
        cause.connect ==> classified(cause, "getting the consent web page"@)
            == YahooErrorView::ConnectionFailed(cause),
        !cause.connect && cause.status == Some(429u16) ==> classified(
            cause,
            "getting the consent web page"@,
        ) == YahooErrorView::TooManyRequests("getting the consent web page"@, cause),
{
}

/// A redirection is followed: where the bootstrap request is answered with a
/// redirection to `target`, and `target` reads as a URI, the negotiator asks
/// for exactly `target`, then for the body of that response, and scrapes that
/// body. The body of the redirecting response is never asked for.
pub proof fn lemma_redirect_is_followed(
    status: u16,
    target: Seq<char>,
    page_status: u16,
    page_location: LocationView,
    html: Seq<char>,
)
    requires
        is_redirection(status),
        uri_read(target) is Ok,
    ensures
        negotiation_step(
            Negotiation::Bootstrap,
            HttpEventView::Answered { status, location: LocationView::Text(target) },
        ) == (
            Negotiation::Redirected,
            NegotiatorActionView::Send(HttpRequestView::Get { url: target }),
        ),
        negotiation_step(
            Negotiation::Redirected,
            HttpEventView::Answered { status: page_status, location: page_location },
        ) == (Negotiation::Page, NegotiatorActionView::ReadBody),
        negotiation_step(Negotiation::Page, HttpEventView::Body(html)) == (
            Negotiation::Closed,
            concluded(scraped(html)),
        ),
{
}

/// An answer to the bootstrap request that is no redirection is itself the
/// consent page: its body is read and scraped, and no further request goes
/// out.
pub proof fn lemma_direct_page(status: u16, location: LocationView, html: Seq<char>)
    requires
        !is_redirection(status),
    ensures
        negotiation_step(
            Negotiation::Bootstrap,
            HttpEventView::Answered { status, location },
        ) == (Negotiation::Page, NegotiatorActionView::ReadBody),
        negotiation_step(Negotiation::Page, HttpEventView::Body(html)) == (
            Negotiation::Closed,
            concluded(scraped(html)),
        ),
{
}

} // verus!
